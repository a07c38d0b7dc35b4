//! The decision rules of the control loop: how one event from the shared
//! channel changes the view-state and what the loop must do next.
//!
//! The loop itself lives outside the library; it receives events, calls
//! [`handle_event`] for every decision, and performs the returned
//! [`Action`] (redrawing, sampling host resources, dispatching a
//! supervisor, or quitting).

use vstd::prelude::*;
use crate::app::{App, app_wf, next_index, prev_index};
use crate::events::{Event, EventView, KeyInput};
use crate::models::{can_start, ProjectType, Service, ServiceStatus, ServiceView};

verus! {

/// What the loop around the library must do after one event is applied.
#[derive(Debug)]
pub enum Action {
    /// Keep receiving; nothing else to do.
    Continue,
    /// Refresh the host resource snapshot and record a CPU sample.
    RefreshStats,
    /// Dispatch a supervisor for this descriptor as a detached task.
    Start(Service),
    /// Leave the loop; the program shuts down.
    Quit,
}

/// The key that quits the dashboard.
pub open spec fn is_quit_key(k: KeyInput) -> bool {
    k == KeyInput::Char('q')
}

/// The keys that move the selection down.
pub open spec fn is_next_key(k: KeyInput) -> bool {
    k == KeyInput::Down || k == KeyInput::Char('j')
}

/// The keys that move the selection up.
pub open spec fn is_prev_key(k: KeyInput) -> bool {
    k == KeyInput::Up || k == KeyInput::Char('k')
}

/// The keys that request a start of the selected service.
pub open spec fn is_start_key(k: KeyInput) -> bool {
    k == KeyInput::Enter || k == KeyInput::Char('s')
}

/// Index of the first service with this name, or -1 when no service
/// carries it. Duplicate names resolve to the first match.
pub open spec fn first_match(services: Seq<Service>, name: Seq<char>) -> int
    decreases services.len(),
{
    if services.len() == 0 {
        -1
    } else if services[0]@.name == name {
        0
    } else {
        let rest = first_match(services.skip(1), name);
        if rest < 0 {
            -1
        } else {
            1 + rest
        }
    }
}

/// `first_match` finds exactly the first index whose service carries the
/// name, and -1 exactly when no service does.
pub proof fn lemma_first_match(services: Seq<Service>, name: Seq<char>)
    ensures
        first_match(services, name) == -1 || 0 <= first_match(services, name) < services.len(),
        first_match(services, name) == -1 ==> forall|j: int|
            0 <= j < services.len() ==> services[j]@.name != name,
        first_match(services, name) >= 0 ==> services[first_match(services, name)]@.name == name,
        first_match(services, name) >= 0 ==> forall|j: int|
            0 <= j < first_match(services, name) ==> services[j]@.name != name,
    decreases services.len(),
{
    if services.len() > 0 && services[0]@.name != name {
        let rest = services.skip(1);
        lemma_first_match(rest, name);
        if first_match(services, name) == -1 {
            assert forall|j: int| 0 <= j < services.len() implies services[j]@.name != name by {
                if j > 0 {
                    assert(services[j] == rest[j - 1]);
                }
            }
        } else {
            let fm = first_match(services, name);
            assert(services[fm] == rest[fm - 1]);
            assert forall|j: int| 0 <= j < fm implies services[j]@.name != name by {
                if j > 0 {
                    assert(services[j] == rest[j - 1]);
                }
            }
        }
    }
}

/// The registry after a log event for `name`: the first service of that
/// name gets the line appended to its log history and everything else is
/// untouched; with no such service the registry is unchanged.
pub open spec fn log_applied(
    before: Seq<Service>,
    after: Seq<Service>,
    name: Seq<char>,
    line: Seq<char>,
) -> bool {
    let fm = first_match(before, name);
    if fm == -1 {
        after == before
    } else {
        &&& after.len() == before.len()
        &&& forall|j: int| 0 <= j < before.len() && j != fm ==> after[j] == before[j]
        &&& after[fm]@ == (ServiceView { logs: before[fm]@.logs.push(line), ..before[fm]@ })
    }
}

/// The registry after a status event for `name`: the first service of that
/// name gets the new status and everything else is untouched; with no such
/// service the registry is unchanged.
pub open spec fn status_applied(
    before: Seq<Service>,
    after: Seq<Service>,
    name: Seq<char>,
    status: ServiceStatus,
) -> bool {
    let fm = first_match(before, name);
    if fm == -1 {
        after == before
    } else {
        &&& after.len() == before.len()
        &&& forall|j: int| 0 <= j < before.len() && j != fm ==> after[j] == before[j]
        &&& after[fm]@ == (ServiceView { status: status, ..before[fm]@ })
    }
}

/// Index of the first service named `name`, or `None` when the name is
/// unknown to the registry.
pub fn find_service(services: &Vec<Service>, name: &String) -> (r: Option<usize>)
    ensures
        r matches Some(i) ==> i < services.len() && first_match(services@, name@) == i,
        r is None ==> first_match(services@, name@) == -1,
{
    proof {
        lemma_first_match(services@, name@);
    }
    let mut i: usize = 0;
    while i < services.len()
        invariant
            i <= services.len(),
            forall|j: int| 0 <= j < i ==> services@[j]@.name != name@,
            first_match(services@, name@) == -1 || 0 <= first_match(services@, name@)
                < services@.len(),
            first_match(services@, name@) == -1 ==> forall|j: int|
                0 <= j < services@.len() ==> services@[j]@.name != name@,
            first_match(services@, name@) >= 0 ==> services@[first_match(
                services@,
                name@,
            )]@.name == name@,
            first_match(services@, name@) >= 0 ==> forall|j: int|
                0 <= j < first_match(services@, name@) ==> services@[j]@.name != name@,
        decreases services.len() - i,
    {
        if services[i].name == *name {
            return Some(i);
        }
        i = i + 1;
    }
    None
}

/// Append one log line to the service at index `i`.
fn append_log(services: &mut Vec<Service>, i: usize, line: String)
    requires
        i < old(services).len(),
    ensures
        final(services)@.len() == old(services)@.len(),
        forall|j: int| 0 <= j < old(services)@.len() && j != i
            ==> final(services)@[j] == old(services)@[j],
        final(services)@[i as int]@ == (ServiceView {
            logs: old(services)@[i as int]@.logs.push(line@),
            ..old(services)@[i as int]@
        }),
    {
    let mut taken = Service::new(String::new(), String::new(), ProjectType::Unknown, String::new());
    services.set_and_swap(i, &mut taken);
    let ghost logs_before = taken@.logs;
    taken.logs.push(line);
    proof {
        assert(taken@.logs =~= logs_before.push(line@));
    }
    services.set_and_swap(i, &mut taken);
}

/// Overwrite the status of the service at index `i`.
fn set_status(services: &mut Vec<Service>, i: usize, status: ServiceStatus)
    requires
        i < old(services).len(),
    ensures
        final(services)@.len() == old(services)@.len(),
        forall|j: int| 0 <= j < old(services)@.len() && j != i
            ==> final(services)@[j] == old(services)@[j],
        final(services)@[i as int]@ == (ServiceView {
            status: status,
            ..old(services)@[i as int]@
        }),
    {
    let mut taken = Service::new(String::new(), String::new(), ProjectType::Unknown, String::new());
    services.set_and_swap(i, &mut taken);
    taken.status = status;
    services.set_and_swap(i, &mut taken);
}

/// Apply one event to the view-state and say what the loop does next.
///
/// Navigation wraps at both ends of the service list. A start request is
/// honored only when the selected service is not running: then the loop
/// gets a copy of the descriptor to hand to a supervisor, and the state is
/// untouched until the supervisor's own events arrive. Log and status
/// events for a name the registry does not know are silently dropped.
pub fn handle_event(app: &mut App, event: Event) -> (act: Action)
    requires
        app_wf(*old(app)),
    ensures
        app_wf(*final(app)),
        event@ is Tick ==> *final(app) == *old(app) && act is RefreshStats,
        event@ is Mouse ==> *final(app) == *old(app) && act is Continue,
        event@ is Quit ==> *final(app) == *old(app) && act is Quit,
        event@ matches EventView::Key(k) ==> {
            &&& is_quit_key(k) ==> *final(app) == *old(app) && act is Quit
            &&& is_next_key(k) ==> act is Continue && final(app).selected_index == next_index(
                old(app).selected_index as int,
                old(app).services.len() as int,
            ) && final(app).services == old(app).services && final(app).title == old(app).title
                && final(app).cpu_history == old(app).cpu_history
            &&& is_prev_key(k) ==> act is Continue && final(app).selected_index == prev_index(
                old(app).selected_index as int,
                old(app).services.len() as int,
            ) && final(app).services == old(app).services && final(app).title == old(app).title
                && final(app).cpu_history == old(app).cpu_history
            &&& is_start_key(k) ==> *final(app) == *old(app) && (if old(app).services.len() > 0
                && can_start(old(app).services@[old(app).selected_index as int].status) {
                act matches Action::Start(d)
                    && d@ == old(app).services@[old(app).selected_index as int]@
            } else {
                act is Continue
            })
            &&& !is_quit_key(k) && !is_next_key(k) && !is_prev_key(k) && !is_start_key(k)
                ==> *final(app) == *old(app) && act is Continue
        },
        event@ matches EventView::ServiceLog(name, line) ==> act is Continue && log_applied(
            old(app).services@,
            final(app).services@,
            name,
            line,
        ) && final(app).selected_index == old(app).selected_index
            && final(app).title == old(app).title
            && final(app).cpu_history == old(app).cpu_history,
        event@ matches EventView::ServiceStatus(name, status) ==> act is Continue
            && status_applied(old(app).services@, final(app).services@, name, status)
            && final(app).selected_index == old(app).selected_index
            && final(app).title == old(app).title
            && final(app).cpu_history == old(app).cpu_history,
{
    match event {
        Event::Tick => Action::RefreshStats,
        Event::Mouse => Action::Continue,
        Event::Quit => Action::Quit,
        Event::Key(k) => {
            if k == KeyInput::Char('q') {
                Action::Quit
            } else if k == KeyInput::Down || k == KeyInput::Char('j') {
                app.next();
                Action::Continue
            } else if k == KeyInput::Up || k == KeyInput::Char('k') {
                app.previous();
                Action::Continue
            } else if k == KeyInput::Enter || k == KeyInput::Char('s') {
                if app.services.len() > 0 {
                    let eligible = match app.services[app.selected_index].status {
                        ServiceStatus::Running(_) => false,
                        _ => true,
                    };
                    if eligible {
                        Action::Start(app.services[app.selected_index].duplicate())
                    } else {
                        Action::Continue
                    }
                } else {
                    Action::Continue
                }
            } else {
                Action::Continue
            }
        },
        Event::ServiceLog(name, line) => {
            match find_service(&app.services, &name) {
                Some(i) => append_log(&mut app.services, i, line),
                None => (),
            }
            Action::Continue
        },
        Event::ServiceStatus(name, status) => {
            match find_service(&app.services, &name) {
                Some(i) => set_status(&mut app.services, i, status),
                None => (),
            }
            Action::Continue
        },
    }
}

} // verus!
