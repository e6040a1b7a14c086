use vstd::prelude::*;
use vstd::string::*;

verus! {

/// The window style bit of a disabled window.
pub const WS_DISABLED: i32 = 0x0800_0000;

/// The extended window style bit of a tool window.
pub const WS_EX_TOOLWINDOW: i32 = 0x0000_0080;

/// The cloak state of a window that the shell hides.
pub const DWM_CLOAKED_SHELL: u32 = 2;

/// What the window list reports of one top-level window.
pub struct WindowInfo<H> {
    pub handle: H,
    pub title: String,
    pub class_name: String,
    /// The window is the desktop shell's own.
    pub is_shell: bool,
    pub visible: bool,
    /// The window is its own root ancestor.
    pub is_root: bool,
    pub style: i32,
    pub ex_style: i32,
    /// The window's cloak state, where it could be read.
    pub cloaked: Option<u32>,
}

/// Class names of windows of packaged applications, which may be cloaked.
pub open spec fn is_app_frame_class(c: Seq<char>) -> bool {
    c == "Windows.UI.Core.CoreWindow"@ || c == "ApplicationFrameWindow"@
}

/// System surfaces that are listed as windows but hold no content: the task
/// view, XAML island hosts and XAML popup hosts.
pub open spec fn known_blocked_spec(title: Seq<char>, class_name: Seq<char>) -> bool {
    (title == "Task View"@ && class_name == "Windows.UI.Core.CoreWindow"@) || (title
        == "DesktopWindowXamlSource"@ && class_name == "Windows.UI.Core.CoreWindow"@) || (title
        == "PopupHost"@ && class_name == "Xaml_WindowedPopupClass"@)
}

/// A window that can be captured: titled, not the shell, visible, a root,
/// neither disabled nor a tool window, not cloaked by the shell, and not a
/// known system surface.
pub open spec fn capturable_spec<H>(w: WindowInfo<H>) -> bool {
    &&& w.title@.len() > 0
    &&& !w.is_shell
    &&& w.visible
    &&& w.is_root
    &&& w.style & WS_DISABLED == 0
    &&& w.ex_style & WS_EX_TOOLWINDOW == 0
    &&& !(is_app_frame_class(w.class_name@) && w.cloaked == Some(DWM_CLOAKED_SHELL))
    &&& !known_blocked_spec(w.title@, w.class_name@)
}

/// `q` occurs in `s` as a contiguous part.
pub open spec fn contains_spec(s: Seq<char>, q: Seq<char>) -> bool {
    exists|i: int| 0 <= i && i + q.len() <= s.len() && #[trigger] s.subrange(i, i + q.len()) == q
}

/// Whether `query` occurs in `text`, case-sensitively.
pub fn contains_text(text: &str, query: &str) -> (r: bool)
    ensures
        r == contains_spec(text@, query@),
{
    let n = text.unicode_len();
    let m = query.unicode_len();
    if m > n {
        return false;
    }
    let wanted = String::from_str(query);
    let mut i: usize = 0;
    loop
        invariant
            n == text@.len(),
            m == query@.len(),
            m <= n,
            i <= n - m,
            wanted@ == query@,
            forall|j: int| 0 <= j < i ==> #[trigger] text@.subrange(j, j + m) != query@,
        decreases n - m - i,
    {
        let part = String::from_str(text.substring_char(i, i + m));
        if part == wanted {
            return true;
        }
        if i == n - m {
            proof {
                assert forall|j: int|
                    0 <= j && j + query@.len() <= text@.len() implies #[trigger] text@.subrange(
                    j,
                    j + query@.len(),
                ) != query@ by {
                    if j == i {
                    } else {
                        assert(j < i);
                    }
                }
            }
            return false;
        }
        i = i + 1;
    }
}

fn equals_text(a: &String, b: &str) -> (r: bool)
    ensures
        r == (a@ == b@),
{
    *a == String::from_str(b)
}

/// Whether the window is a known system surface without content.
pub fn is_known_blocked_window(title: &String, class_name: &String) -> (r: bool)
    ensures
        r == known_blocked_spec(title@, class_name@),
{
    matches_title_and_class_name(title, class_name, "Task View", "Windows.UI.Core.CoreWindow")
        || matches_title_and_class_name(
        title,
        class_name,
        "DesktopWindowXamlSource",
        "Windows.UI.Core.CoreWindow",
    ) || matches_title_and_class_name(title, class_name, "PopupHost", "Xaml_WindowedPopupClass")
}

/// Whether the window has exactly this title and class name.
pub fn matches_title_and_class_name(
    title: &String,
    class_name: &String,
    wanted_title: &str,
    wanted_class: &str,
) -> (r: bool)
    ensures
        r == (title@ == wanted_title@ && class_name@ == wanted_class@),
{
    equals_text(title, wanted_title) && equals_text(class_name, wanted_class)
}

impl<H> WindowInfo<H> {
    /// Whether the window can be captured.
    pub fn is_capturable_window(&self) -> (r: bool)
        ensures
            r == capturable_spec(*self),
    {
        if self.title.as_str().is_empty() || self.is_shell || !self.visible || !self.is_root {
            return false;
        }
        if self.style & WS_DISABLED != 0 || self.ex_style & WS_EX_TOOLWINDOW != 0 {
            return false;
        }
        if equals_text(&self.class_name, "Windows.UI.Core.CoreWindow") || equals_text(
            &self.class_name,
            "ApplicationFrameWindow",
        ) {
            if let Some(c) = self.cloaked {
                if c == DWM_CLOAKED_SHELL {
                    return false;
                }
            }
        }
        !is_known_blocked_window(&self.title, &self.class_name)
    }

    /// Whether the window can be captured and its title holds `title`.
    pub fn matches(&self, title: &str) -> (r: bool)
        ensures
            r == (capturable_spec(*self) && contains_spec(self.title@, title@)),
    {
        self.is_capturable_window() && contains_text(self.title.as_str(), title)
    }
}

/// The position of the first window in `windows` that can be captured and
/// whose title holds `title`.
pub fn first_matching_window<H>(windows: &Vec<WindowInfo<H>>, title: &str) -> (r: Option<usize>)
    ensures
        match r {
            Some(i) => i < windows@.len() && capturable_spec(windows@[i as int]) && contains_spec(
                windows@[i as int].title@,
                title@,
            ) && forall|j: int|
                0 <= j < i ==> !(capturable_spec(#[trigger] windows@[j]) && contains_spec(
                    windows@[j].title@,
                    title@,
                )),
            None => forall|j: int|
                0 <= j < windows@.len() ==> !(capturable_spec(#[trigger] windows@[j])
                    && contains_spec(windows@[j].title@, title@)),
        },
{
    let mut i: usize = 0;
    while i < windows.len()
        invariant
            i <= windows@.len(),
            forall|j: int|
                0 <= j < i ==> !(capturable_spec(#[trigger] windows@[j]) && contains_spec(
                    windows@[j].title@,
                    title@,
                )),
        decreases windows@.len() - i,
    {
        if windows[i].matches(title) {
            return Some(i);
        }
        i = i + 1;
    }
    None
}

/// The index of the first NUL character of `s`, or its length if it has none.
pub open spec fn first_nul(s: Seq<char>) -> int
    decreases s.len(),
{
    if s.len() == 0 {
        0
    } else if s[0] == '\0' {
        0
    } else {
        1 + first_nul(s.drop_first())
    }
}

proof fn lemma_first_nul(s: Seq<char>)
    ensures
        0 <= first_nul(s) <= s.len(),
        first_nul(s) < s.len() ==> s[first_nul(s)] == '\0',
        forall|j: int| 0 <= j < first_nul(s) ==> s[j] != '\0',
    decreases s.len(),
{
    if s.len() > 0 && s[0] != '\0' {
        lemma_first_nul(s.drop_first());
        assert forall|j: int| 0 <= j < first_nul(s) implies s[j] != '\0' by {
            if j > 0 {
                assert(s[j] == s.drop_first()[j - 1]);
            }
        }
    }
}

/// Cuts a string read from a fixed-size buffer at its first NUL character.
pub fn truncate_to_first_null_char(input: &mut String)
    ensures
        final(input)@ == old(input)@.take(first_nul(old(input)@)),
{
    proof {
        lemma_first_nul(input@);
    }
    let n = input.as_str().unicode_len();
    let mut i: usize = 0;
    let mut found = false;
    while i < n && !found
        invariant
            n == input@.len(),
            i <= n,
            found ==> i < n && input@[i as int] == '\0',
            forall|j: int| 0 <= j < i ==> input@[j] != '\0',
        decreases n - i + (if found { 0int } else { 1int }),
    {
        if input.as_str().get_char(i) == '\0' {
            found = true;
        } else {
            i = i + 1;
        }
    }
    proof {
        let s = input@;
        if (i as int) < first_nul(s) {
            assert(s[i as int] != '\0');
        }
        if first_nul(s) < i {
            assert(s[first_nul(s)] == '\0');
        }
    }
    let kept = String::from_str(input.as_str().substring_char(0, i));
    *input = kept;
}

} // verus!
