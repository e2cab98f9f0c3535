use vstd::prelude::*;
use crate::error::CaptureError;
use crate::geometry::Size;

verus! {

/// A display that can be captured: the host's identifier for it and its full
/// extent.
#[derive(Clone, Copy, Debug, PartialEq, Eq, Structural)]
pub struct Display {
    pub display_id: u32,
    pub bounds: Size,
}

/// A running application as the host describes it. Either name may be absent.
#[derive(Clone, Debug)]
pub struct RunningApplication {
    pub process_id: u32,
    pub bundle_identifier: Option<String>,
    pub application_name: Option<String>,
}

/// A window that can be captured, with the application that owns it.
#[derive(Clone, Debug)]
pub struct Window {
    pub window_id: u32,
    pub title: String,
    pub owning_application: RunningApplication,
}

/// One answer of the host to the question what can be captured. It is a
/// snapshot: nothing in it changes after it was made.
#[derive(Clone, Debug)]
pub struct ShareableContent {
    displays: Vec<Display>,
    windows: Vec<Window>,
    applications: Vec<RunningApplication>,
}

/// A walk over the positions of a host array of a known length, from the
/// first to the last.
#[derive(Clone, Copy, Debug, PartialEq, Eq, Structural)]
pub struct NSArrayIter {
    count: u64,
    pos: u64,
}

/// A completion that is called at most once: the first answer takes the
/// callback out, and a later one finds nothing to call.
pub struct Completion<C> {
    callback: Option<C>,
}

impl NSArrayIter {
    pub closed spec fn count(self) -> u64 {
        self.count
    }

    pub closed spec fn pos(self) -> u64 {
        self.pos
    }

    /// The walk never goes past the end.
    pub open spec fn wf(self) -> bool {
        self.pos() <= self.count()
    }

    /// A walk over an array of `count` items, before the first.
    pub fn new(count: u64) -> (iter: NSArrayIter)
        ensures
            iter.wf(),
            iter.count() == count,
            iter.pos() == 0,
    {
        NSArrayIter { count, pos: 0 }
    }

    /// The position of the next item, if one is left, and moves on.
    pub fn next(&mut self) -> (index: Option<u64>)
        requires
            old(self).wf(),
        ensures
            final(self).wf(),
            final(self).count() == old(self).count(),
            old(self).pos() < old(self).count() ==> index == Some(old(self).pos()) && final(self).pos() == old(self).pos() + 1,
            old(self).pos() == old(self).count() ==> index.is_none() && final(self).pos() == old(self).pos(),
    {
        if self.pos < self.count {
            let pos = self.pos;
            self.pos = pos + 1;
            Some(pos)
        } else {
            None
        }
    }
}

impl<C> Completion<C> {
    /// The callback that is still to be called, if it was not called yet.
    pub closed spec fn pending(self) -> Option<C> {
        self.callback
    }

    /// A completion that waits for its one answer.
    pub fn new(callback: C) -> (completion: Completion<C>)
        ensures
            completion.pending() == Some(callback),
    {
        Completion { callback: Some(callback) }
    }

    /// Hands out the callback for the first answer, and nothing after that.
    pub fn take(&mut self) -> (callback: Option<C>)
        ensures
            callback == old(self).pending(),
            final(self).pending().is_none(),
    {
        self.callback.take()
    }
}

impl Display {
    pub fn new(display_id: u32, bounds: Size) -> (display: Display)
        ensures
            display == (Display { display_id, bounds }),
    {
        Display { display_id, bounds }
    }
}

impl RunningApplication {
    pub fn new(
        process_id: u32,
        bundle_identifier: Option<String>,
        application_name: Option<String>,
    ) -> (app: RunningApplication)
        ensures
            app == (RunningApplication { process_id, bundle_identifier, application_name }),
    {
        RunningApplication { process_id, bundle_identifier, application_name }
    }

    /// The bundle identifier as a sequence of characters, where there is one.
    pub open spec fn bundle_id(self) -> Option<Seq<char>> {
        match self.bundle_identifier {
            Some(id) => Some(id@),
            None => None,
        }
    }

    pub fn process_id(&self) -> (pid: u32)
        ensures
            pid == self.process_id,
    {
        self.process_id
    }

    pub fn bundle_identifier(&self) -> (id: &Option<String>)
        ensures
            *id == self.bundle_identifier,
    {
        &self.bundle_identifier
    }

    pub fn application_name(&self) -> (name: &Option<String>)
        ensures
            *name == self.application_name,
    {
        &self.application_name
    }

    /// A second application record with the same identity and names.
    pub fn duplicate(&self) -> (copy: RunningApplication)
        ensures
            copy == *self,
    {
        let bundle_identifier = match &self.bundle_identifier {
            Some(id) => Some(id.clone()),
            None => None,
        };
        let application_name = match &self.application_name {
            Some(name) => Some(name.clone()),
            None => None,
        };
        RunningApplication { process_id: self.process_id, bundle_identifier, application_name }
    }
}

impl Window {
    pub fn new(window_id: u32, title: String, owning_application: RunningApplication) -> (window:
        Window)
        ensures
            window == (Window { window_id, title, owning_application }),
    {
        Window { window_id, title, owning_application }
    }

    pub fn window_id(&self) -> (id: u32)
        ensures
            id == self.window_id,
    {
        self.window_id
    }

    pub fn title(&self) -> (title: &String)
        ensures
            *title == self.title,
    {
        &self.title
    }

    pub fn owning_application(&self) -> (app: &RunningApplication)
        ensures
            *app == self.owning_application,
    {
        &self.owning_application
    }
}

impl ShareableContent {
    pub closed spec fn spec_displays(self) -> Seq<Display> {
        self.displays@
    }

    pub closed spec fn spec_windows(self) -> Seq<Window> {
        self.windows@
    }

    pub closed spec fn spec_applications(self) -> Seq<RunningApplication> {
        self.applications@
    }

    /// A snapshot of the given displays, windows and applications, each list
    /// in the order given.
    pub fn new(
        displays: Vec<Display>,
        windows: Vec<Window>,
        applications: Vec<RunningApplication>,
    ) -> (content: ShareableContent)
        ensures
            content.spec_displays() == displays@,
            content.spec_windows() == windows@,
            content.spec_applications() == applications@,
    {
        ShareableContent { displays, windows, applications }
    }

    /// Turns the host's answer into a result: the snapshot where it gave
    /// one, and the failure to list the content where it did not.
    pub fn get(reply: Option<ShareableContent>) -> (result: Result<ShareableContent, CaptureError>)
        ensures
            result == (match reply {
                Some(content) => Ok::<ShareableContent, CaptureError>(content),
                None => Err::<ShareableContent, CaptureError>(CaptureError::ContentUnavailable),
            }),
    {
        match reply {
            Some(content) => Ok(content),
            None => Err(CaptureError::ContentUnavailable),
        }
    }

    pub fn displays(&self) -> (displays: &Vec<Display>)
        ensures
            displays@ == self.spec_displays(),
    {
        &self.displays
    }

    pub fn windows(&self) -> (windows: &Vec<Window>)
        ensures
            windows@ == self.spec_windows(),
    {
        &self.windows
    }

    pub fn applications(&self) -> (applications: &Vec<RunningApplication>)
        ensures
            applications@ == self.spec_applications(),
    {
        &self.applications
    }
}

} // verus!
