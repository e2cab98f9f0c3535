use vstd::prelude::*;
use crate::content::{Display, RunningApplication, Window};

verus! {

/// What a capture session shows. A filter is a value: once built it does not
/// follow later changes of the content it was built from.
#[derive(Clone, Debug)]
pub enum ContentFilter {
    /// One window, wherever it is on the desktop.
    DesktopIndependentWindow { window: Window },
    /// A display, showing only the listed windows.
    DisplayIncludingWindows { display: Display, windows: Vec<Window> },
    /// A display, without the listed windows.
    DisplayExcludingWindows { display: Display, windows: Vec<Window> },
    /// A display, showing only the listed applications, and not their listed
    /// windows.
    DisplayIncludingApplications {
        display: Display,
        applications: Vec<RunningApplication>,
        excepting_windows: Vec<Window>,
    },
    /// A display, without the listed applications, except for the listed
    /// windows.
    DisplayExcludingApplications {
        display: Display,
        applications: Vec<RunningApplication>,
        excepting_windows: Vec<Window>,
    },
}

/// The bundle identifiers that never belong in a capture: this program, the
/// desktop shell, input-method agents, the system's own interface and a few
/// helpers that draw over everything.
pub open spec fn default_blocklist_ids() -> Seq<Seq<char>> {
    seq![
        "com.koba789.sckitndi"@,
        "com.apple.controlcenter"@,
        "com.apple.dock"@,
        "com.apple.TextInputMenuAgent"@,
        "com.1password.1password"@,
        "com.getdropbox.dropbox"@,
        "com.apple.notificationcenterui"@,
        "com.justsystems.inputmethod.atok32"@,
        "com.apple.systemuiserver"@,
        "com.newtek.Application-Mac-NDI-StudioMonitor"@,
        "com.hnc.Discord"@,
    ]
}

/// The identifiers of a blocklist, as sequences of characters.
pub open spec fn blocklist_ids(blocklist: Seq<String>) -> Seq<Seq<char>> {
    blocklist.map_values(|entry: String| entry@)
}

/// An application is blocked when it has a bundle identifier and the
/// blocklist holds it. One without an identifier is never blocked.
pub open spec fn is_blocked(app: RunningApplication, ids: Seq<Seq<char>>) -> bool {
    match app.bundle_id() {
        Some(id) => ids.contains(id),
        None => false,
    }
}

/// The applications of `applications` that are blocked, in their order.
pub open spec fn blocked_applications(
    applications: Seq<RunningApplication>,
    ids: Seq<Seq<char>>,
) -> Seq<RunningApplication> {
    applications.filter(|app: RunningApplication| is_blocked(app, ids))
}

/// The blocklist that [`default_blocklist_ids`] describes.
pub fn default_blocklist() -> (blocklist: Vec<String>)
    ensures
        blocklist_ids(blocklist@) == default_blocklist_ids(),
{
    let mut blocklist: Vec<String> = Vec::new();
    blocklist.push("com.koba789.sckitndi".to_owned());
    blocklist.push("com.apple.controlcenter".to_owned());
    blocklist.push("com.apple.dock".to_owned());
    blocklist.push("com.apple.TextInputMenuAgent".to_owned());
    blocklist.push("com.1password.1password".to_owned());
    blocklist.push("com.getdropbox.dropbox".to_owned());
    blocklist.push("com.apple.notificationcenterui".to_owned());
    blocklist.push("com.justsystems.inputmethod.atok32".to_owned());
    blocklist.push("com.apple.systemuiserver".to_owned());
    blocklist.push("com.newtek.Application-Mac-NDI-StudioMonitor".to_owned());
    blocklist.push("com.hnc.Discord".to_owned());
    assert(blocklist_ids(blocklist@) =~= default_blocklist_ids());
    blocklist
}

/// Whether the blocklist holds the identifier.
pub fn blocklist_contains(blocklist: &Vec<String>, id: &String) -> (found: bool)
    ensures
        found == blocklist_ids(blocklist@).contains(id@),
{
    let mut i: usize = 0;
    while i < blocklist.len()
        invariant
            i <= blocklist.len(),
            forall|k: int| 0 <= k < i ==> blocklist_ids(blocklist@)[k] != id@,
        decreases blocklist.len() - i,
    {
        if blocklist[i] == *id {
            assert(blocklist_ids(blocklist@)[i as int] == id@);
            return true;
        }
        i += 1;
    }
    false
}

/// Whether the application is blocked: see [`is_blocked`].
pub fn application_is_blocked(app: &RunningApplication, blocklist: &Vec<String>) -> (blocked: bool)
    ensures
        blocked == is_blocked(*app, blocklist_ids(blocklist@)),
{
    match &app.bundle_identifier {
        Some(id) => blocklist_contains(blocklist, id),
        None => false,
    }
}

/// Builds the filter of a capture session from a snapshot of the content.
pub struct FilterBuilder {}

impl FilterBuilder {
    /// The filter for `display` that leaves out every application whose
    /// bundle identifier is on the blocklist, keeps all the others, and
    /// leaves out no window.
    pub fn build(
        display: Display,
        applications: &Vec<RunningApplication>,
        blocklist: &Vec<String>,
    ) -> (filter: ContentFilter)
        ensures
            filter matches ContentFilter::DisplayExcludingApplications {
                display: d,
                applications: excluded,
                excepting_windows,
            } && d == display && excluded@ == blocked_applications(
                applications@,
                blocklist_ids(blocklist@),
            ) && excepting_windows@.len() == 0,
            filter.excluded_windows().len() == 0,
            forall|app: RunningApplication|
                filter.excludes_application(app) <==> applications@.contains(app) && is_blocked(
                    app,
                    blocklist_ids(blocklist@),
                ),
    {
        let ghost ids = blocklist_ids(blocklist@);
        let ghost pred = |app: RunningApplication| is_blocked(app, ids);
        let mut excluded: Vec<RunningApplication> = Vec::new();
        let mut i: usize = 0;
        assert(applications@.take(0) =~= Seq::empty());
        while i < applications.len()
            invariant
                i <= applications.len(),
                ids == blocklist_ids(blocklist@),
                pred == (|app: RunningApplication| is_blocked(app, ids)),
                excluded@ == applications@.take(i as int).filter(pred),
            decreases applications.len() - i,
        {
            let app = &applications[i];
            proof {
                assert(applications@.take(i + 1) =~= applications@.take(i as int).push(*app));
                applications@.take(i as int).lemma_filter_push(*app, pred);
            }
            if application_is_blocked(app, blocklist) {
                excluded.push(app.duplicate());
            }
            i += 1;
        }
        proof {
            assert(applications@.take(i as int) =~= applications@);
            let all = applications@;
            assert forall|app: RunningApplication|
                excluded@.contains(app) <==> all.contains(app) && is_blocked(app, ids) by {
                if excluded@.contains(app) {
                    let k = choose|k: int| 0 <= k < excluded@.len() && excluded@[k] == app;
                    all.lemma_filter_pred(pred, k);
                    all.lemma_filter_contains_rev(pred, app);
                }
                if all.contains(app) && is_blocked(app, ids) {
                    let k = choose|k: int| 0 <= k < all.len() && all[k] == app;
                    assert(pred(all[k]));
                    all.lemma_filter_contains(pred, k);
                }
            }
        }
        ContentFilter::DisplayExcludingApplications {
            display,
            applications: excluded,
            excepting_windows: Vec::new(),
        }
    }
}

impl ContentFilter {
    /// The display the filter is built on; none for a single window.
    pub open spec fn spec_display(self) -> Option<Display> {
        match self {
            ContentFilter::DesktopIndependentWindow { .. } => None,
            ContentFilter::DisplayIncludingWindows { display, .. } => Some(display),
            ContentFilter::DisplayExcludingWindows { display, .. } => Some(display),
            ContentFilter::DisplayIncludingApplications { display, .. } => Some(display),
            ContentFilter::DisplayExcludingApplications { display, .. } => Some(display),
        }
    }

    /// The applications that the filter names as left out.
    pub open spec fn excluded_applications(self) -> Seq<RunningApplication> {
        match self {
            ContentFilter::DisplayExcludingApplications { applications, .. } => applications@,
            _ => Seq::empty(),
        }
    }

    /// The windows that the filter names as left out.
    pub open spec fn excluded_windows(self) -> Seq<Window> {
        match self {
            ContentFilter::DisplayExcludingWindows { windows, .. } => windows@,
            _ => Seq::empty(),
        }
    }

    /// Whether the filter names the application as left out.
    pub open spec fn excludes_application(self, app: RunningApplication) -> bool {
        self.excluded_applications().contains(app)
    }

    /// A filter that shows one window.
    pub fn with_desktop_independent_window(window: Window) -> (filter: ContentFilter)
        ensures
            filter == (ContentFilter::DesktopIndependentWindow { window }),
    {
        ContentFilter::DesktopIndependentWindow { window }
    }

    /// A filter that shows only the given windows of a display.
    pub fn init_with_display_including_windows(display: Display, including_windows: Vec<Window>) -> (filter:
        ContentFilter)
        ensures
            filter == (ContentFilter::DisplayIncludingWindows {
                display,
                windows: including_windows,
            }),
    {
        ContentFilter::DisplayIncludingWindows { display, windows: including_windows }
    }

    /// A filter that shows a display without the given windows.
    pub fn init_with_display_excluding_windows(display: Display, excluding_windows: Vec<Window>) -> (filter:
        ContentFilter)
        ensures
            filter == (ContentFilter::DisplayExcludingWindows {
                display,
                windows: excluding_windows,
            }),
    {
        ContentFilter::DisplayExcludingWindows { display, windows: excluding_windows }
    }

    /// A filter that shows only the given applications on a display, and not
    /// the given windows of theirs.
    pub fn init_with_display_including_applications_excepting_windows(
        display: Display,
        including_applications: Vec<RunningApplication>,
        excepting_windows: Vec<Window>,
    ) -> (filter: ContentFilter)
        ensures
            filter == (ContentFilter::DisplayIncludingApplications {
                display,
                applications: including_applications,
                excepting_windows,
            }),
    {
        ContentFilter::DisplayIncludingApplications {
            display,
            applications: including_applications,
            excepting_windows,
        }
    }

    /// A filter that shows a display without the given applications, but with
    /// the given windows of theirs.
    pub fn init_with_display_excluding_applications_excepting_windows(
        display: Display,
        excluding_applications: Vec<RunningApplication>,
        excepting_windows: Vec<Window>,
    ) -> (filter: ContentFilter)
        ensures
            filter == (ContentFilter::DisplayExcludingApplications {
                display,
                applications: excluding_applications,
                excepting_windows,
            }),
    {
        ContentFilter::DisplayExcludingApplications {
            display,
            applications: excluding_applications,
            excepting_windows,
        }
    }
}

} // verus!
