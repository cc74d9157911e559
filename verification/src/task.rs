//! A single task that reports its work as a sequence of named sections.
//!
//! The task's side builds events; the watcher's side folds them into the
//! section that is running and the list of those that are finished.

use vstd::prelude::*;
use crate::clock::{elapsed, Timestamp};

verus! {

/// What a task tells its watcher.
#[derive(Debug, Clone, PartialEq, Eq)]
pub enum TaskEvent {
    /// A section begins, with the amount of work in it if that is known.
    /// The section that was running, if any, is finished.
    Begin(String, Option<u64>),
    /// The running section is finished and none follows yet.
    End,
    /// So much more of the running section's work is done.
    Progress(u64),
}

/// The section that is running.
#[derive(Debug, Clone, PartialEq, Eq)]
pub struct Section {
    pub name: String,
    /// Work done and work in all, where the latter is known.
    pub progress: Option<(u64, u64)>,
    /// When the section began.
    pub start: Timestamp,
}

/// A section that is over.
#[derive(Debug, Clone, PartialEq, Eq)]
pub struct FinishedSection {
    pub name: String,
    /// Work done and work in all, where the latter is known.
    pub progress: Option<(u64, u64)>,
    /// How long the section ran, in nanoseconds.
    pub duration: u64,
}

/// What a section shows, whether it runs or is over.
pub trait AnySection {
    /// The section's name as characters.
    spec fn shown_name(&self) -> Seq<char>;

    /// Work done and work in all, where the latter is known.
    spec fn shown_progress(&self) -> Option<(u64, u64)>;

    /// Whether the section's duration can be told at `now`.
    spec fn measurable(&self, now: Timestamp) -> bool;

    /// The section's duration at `now`, in nanoseconds.
    spec fn shown_duration(&self, now: Timestamp) -> nat;

    /// The section's name.
    fn name(&self) -> (name: &str)
        ensures
            name@ == self.shown_name(),
    ;

    /// Work done and work in all, where the latter is known.
    fn progress(&self) -> (progress: Option<(u64, u64)>)
        ensures
            progress == self.shown_progress(),
    ;

    /// The section's duration at `now`, in nanoseconds.
    fn duration(&self, now: Timestamp) -> (nanos: u64)
        requires
            self.measurable(now),
        ensures
            nanos == self.shown_duration(now),
    ;
}

impl AnySection for Section {
    open spec fn shown_name(&self) -> Seq<char> {
        self.name@
    }

    open spec fn shown_progress(&self) -> Option<(u64, u64)> {
        self.progress
    }

    /// A running section has a duration once the clock has reached its start.
    open spec fn measurable(&self, now: Timestamp) -> bool {
        now.nanos >= self.start.nanos
    }

    /// A running section has run since its start.
    open spec fn shown_duration(&self, now: Timestamp) -> nat {
        elapsed(now, self.start)
    }

    fn name(&self) -> (name: &str) {
        self.name.as_str()
    }

    fn progress(&self) -> (progress: Option<(u64, u64)>) {
        self.progress
    }

    fn duration(&self, now: Timestamp) -> (nanos: u64) {
        now.since(self.start)
    }
}

impl AnySection for FinishedSection {
    open spec fn shown_name(&self) -> Seq<char> {
        self.name@
    }

    open spec fn shown_progress(&self) -> Option<(u64, u64)> {
        self.progress
    }

    open spec fn measurable(&self, now: Timestamp) -> bool {
        true
    }

    /// A finished section ran as long as was recorded, whatever the clock says.
    open spec fn shown_duration(&self, now: Timestamp) -> nat {
        self.duration as nat
    }

    fn name(&self) -> (name: &str) {
        self.name.as_str()
    }

    fn progress(&self) -> (progress: Option<(u64, u64)>) {
        self.progress
    }

    fn duration(&self, now: Timestamp) -> (nanos: u64) {
        self.duration
    }
}

/// The task's side: it builds the events that the task sends.
#[derive(Debug, Clone, Copy, PartialEq, Eq, Structural)]
pub struct TaskContext {}

impl TaskContext {
    /// The context of a task.
    pub fn new() -> (context: TaskContext)
        ensures
            context == (TaskContext {  }),
    {
        TaskContext {  }
    }

    /// The event that begins the section `label`, with `progress` as the
    /// amount of work in it.
    pub fn begin(&self, label: String, progress: Option<u64>) -> (event: TaskEvent)
        ensures
            event == TaskEvent::Begin(label, progress),
    {
        TaskEvent::Begin(label, progress)
    }

    /// The event that ends the running section without beginning another.
    pub fn end(&self) -> (event: TaskEvent)
        ensures
            event == TaskEvent::End,
    {
        TaskEvent::End
    }

    /// The event that reports `n` more units of work, or nothing for no work.
    pub fn step(&self, n: u64) -> (event: Option<TaskEvent>)
        ensures
            event == (if n > 0 {
                Some(TaskEvent::Progress(n))
            } else {
                None
            }),
    {
        if n > 0 {
            Some(TaskEvent::Progress(n))
        } else {
            None
        }
    }
}

/// The watcher's side: the task's name, the section that is running and
/// the sections that are over, oldest first.
#[derive(Debug)]
pub struct TaskHandle {
    name: String,
    section: Option<Section>,
    finished: Vec<FinishedSection>,
}

/// A section as it is recorded once it is over at `now`.
pub open spec fn finished_at(section: Section, now: Timestamp) -> FinishedSection {
    FinishedSection {
        name: section.name,
        progress: section.progress,
        duration: elapsed(now, section.start) as u64,
    }
}

/// Work done and work in all after `step` more units: never more done
/// than there is.
pub open spec fn advanced(progress: Option<(u64, u64)>, step: u64) -> Option<(u64, u64)> {
    match progress {
        Some((done, total)) => Some(
            (
                if done + step <= total {
                    (done + step) as u64
                } else {
                    total
                },
                total,
            ),
        ),
        None => None,
    }
}

/// The running section after an event that arrives at `now`.
pub open spec fn section_after(section: Option<Section>, event: TaskEvent, now: Timestamp) -> Option<
    Section,
> {
    match event {
        TaskEvent::Begin(name, progress) => Some(
            Section {
                name,
                progress: match progress {
                    Some(total) => Some((0u64, total)),
                    None => None,
                },
                start: now,
            },
        ),
        TaskEvent::End => None,
        TaskEvent::Progress(step) => match section {
            Some(running) => Some(
                Section {
                    name: running.name,
                    progress: advanced(running.progress, step),
                    start: running.start,
                },
            ),
            None => None,
        },
    }
}

/// The finished sections after an event that arrives at `now`: a section
/// that was running when another begins, or when the end is told, joins them.
pub open spec fn finished_after(
    finished: Seq<FinishedSection>,
    section: Option<Section>,
    event: TaskEvent,
    now: Timestamp,
) -> Seq<FinishedSection> {
    match (event, section) {
        (TaskEvent::Begin(_, _), Some(running)) => finished.push(finished_at(running, now)),
        (TaskEvent::End, Some(running)) => finished.push(finished_at(running, now)),
        _ => finished,
    }
}

impl TaskHandle {
    /// The task's name as characters.
    pub closed spec fn shown_name(&self) -> Seq<char> {
        self.name@
    }

    /// The section that is running, if any.
    pub closed spec fn running(&self) -> Option<Section> {
        self.section
    }

    /// The sections that are over and not yet taken, oldest first.
    pub closed spec fn done(&self) -> Seq<FinishedSection> {
        self.finished@
    }

    /// The watcher's side of a task that has not begun a section.
    pub fn new(name: String) -> (handle: TaskHandle)
        ensures
            handle.shown_name() == name@,
            handle.running() is None,
            handle.done() == Seq::<FinishedSection>::empty(),
    {
        TaskHandle { name, section: None, finished: Vec::new() }
    }

    /// The task's name.
    pub fn name(&self) -> (name: &str)
        ensures
            name@ == self.shown_name(),
    {
        self.name.as_str()
    }

    /// The section that is running, if any.
    pub fn section(&self) -> (section: Option<&Section>)
        ensures
            section matches Some(running) ==> self.running() == Some(*running),
            section is None ==> self.running() is None,
    {
        self.section.as_ref()
    }

    /// Takes in one event that arrives at `now`. A section that begins
    /// replaces the running one, which is recorded as finished with the
    /// time it ran; the end of a section records it likewise; progress is
    /// added to the running section's work, up to the work in all.
    pub fn process_event(&mut self, event: TaskEvent, now: Timestamp)
        ensures
            final(self).shown_name() == old(self).shown_name(),
            final(self).running() == section_after(old(self).running(), event, now),
            final(self).done() == finished_after(old(self).done(), old(self).running(), event, now),
    {
        match event {
            TaskEvent::Begin(name, progress) => {
                let counted = match progress {
                    Some(total) => Some((0u64, total)),
                    None => None,
                };
                let before = self.section.take();
                self.section = Some(Section { name, progress: counted, start: now });
                match before {
                    Some(running) => {
                        let duration: u64 = now.since(running.start);
                        self.finished.push(
                            FinishedSection {
                                name: running.name,
                                progress: running.progress,
                                duration,
                            },
                        );
                    },
                    None => {},
                }
            },
            TaskEvent::End => {
                match self.section.take() {
                    Some(running) => {
                        let duration: u64 = now.since(running.start);
                        self.finished.push(
                            FinishedSection {
                                name: running.name,
                                progress: running.progress,
                                duration,
                            },
                        );
                    },
                    None => {},
                }
            },
            TaskEvent::Progress(step) => {
                match self.section.take() {
                    Some(running) => {
                        let moved = match running.progress {
                            Some((done, total)) => {
                                let next: u64 = if step <= total && done <= total - step {
                                    done + step
                                } else {
                                    total
                                };
                                Some((next, total))
                            },
                            None => None,
                        };
                        self.section = Some(
                            Section { name: running.name, progress: moved, start: running.start },
                        );
                    },
                    None => {},
                }
            },
        }
    }

    /// Hands over the sections that are over, oldest first, and forgets them.
    pub fn take_finished(&mut self) -> (taken: Vec<FinishedSection>)
        ensures
            taken@ == old(self).done(),
            final(self).done() == Seq::<FinishedSection>::empty(),
            final(self).running() == old(self).running(),
            final(self).shown_name() == old(self).shown_name(),
    {
        let mut taken: Vec<FinishedSection> = Vec::new();
        std::mem::swap(&mut self.finished, &mut taken);
        taken
    }
}

} // verus!
