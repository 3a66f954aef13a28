//! Finding and validating the window of a capture target.
//!
//! The operating system owns the window registry. A caller enumerates it and
//! hands each window over as a [`WindowSnapshot`]; the functions here decide
//! which window a search string resolves to and whether a handle still
//! denotes a window that can be recorded.

use crate::capture::text::{
    contains, contains_text, decode_utf16_lossy, lemma_empty_text_is_contained, lowercase_text,
    to_lowercase, utf16_lossy_text,
};
use vstd::prelude::*;
use vstd::slice::slice_subrange;

verus! {

/// How a window title is compared with the search string.
#[derive(Debug, Clone, Copy, PartialEq, Eq, Structural)]
pub enum WindowMatchType {
    /// The title contains the search string, ignoring case.
    Substring,
    /// The title equals the search string, case included.
    ExactMatch,
}

impl Default for WindowMatchType {
    fn default() -> (match_type: Self)
        ensures
            match_type == WindowMatchType::Substring,
    {
        WindowMatchType::Substring
    }
}

/// The identity the operating system gave a window. It is a reference, not
/// an owned resource: the window may disappear at any time. The value 0 is
/// the null identity and denotes no window.
#[derive(Debug, Clone, Copy, PartialEq, Eq, Structural)]
pub struct WindowHandle(pub isize);

impl WindowHandle {
    /// The null identity.
    pub fn null() -> (handle: Self)
        ensures
            handle.0 == 0,
    {
        WindowHandle(0)
    }

    /// Whether this is the null identity.
    pub fn is_null(&self) -> (null: bool)
        ensures
            null == (self.0 == 0),
    {
        self.0 == 0
    }
}

/// The number of UTF-16 code units of a title that are retrieved for
/// comparison. What a title holds beyond them is ignored.
pub const TITLE_BUFFER_LEN: usize = 512;

/// What the operating system reports of one window at the moment it is
/// asked: its identity, whether it is shown, and its title as UTF-16 code
/// units.
#[derive(Debug, Clone)]
pub struct WindowSnapshot {
    pub handle: WindowHandle,
    pub visible: bool,
    pub title: Vec<u16>,
}

/// The mathematical content of a [`WindowSnapshot`].
pub struct WindowState {
    pub handle: WindowHandle,
    pub visible: bool,
    pub title: Seq<u16>,
}

impl View for WindowSnapshot {
    type V = WindowState;

    open spec fn view(&self) -> WindowState {
        WindowState { handle: self.handle, visible: self.visible, title: self.title@ }
    }
}

/// The registry as a sequence of window states, in enumeration order.
pub open spec fn registry_view(windows: Seq<WindowSnapshot>) -> Seq<WindowState> {
    windows.map_values(|window: WindowSnapshot| window@)
}

/// The part of a title that is retrieved: all of it, or its first
/// `TITLE_BUFFER_LEN` code units where it is longer.
pub open spec fn retrieved_title(title: Seq<u16>) -> Seq<u16> {
    if title.len() <= TITLE_BUFFER_LEN {
        title
    } else {
        title.subrange(0, TITLE_BUFFER_LEN as int)
    }
}

/// The title of a window as text.
pub open spec fn window_title(window: WindowState) -> Seq<char> {
    utf16_lossy_text(retrieved_title(window.title))
}

/// The text of a window's title that takes part in the comparison: the
/// title itself for an exact match, its lowercase form otherwise.
pub open spec fn comparison_text(window: WindowState, match_type: WindowMatchType) -> Seq<char> {
    match match_type {
        WindowMatchType::Substring => lowercase_text(window_title(window)),
        WindowMatchType::ExactMatch => window_title(window),
    }
}

/// The form of the search string that titles are compared with: the string
/// itself for an exact match, its lowercase form otherwise.
pub open spec fn prepared_search(search_string: Seq<char>, match_type: WindowMatchType) -> Seq<
    char,
> {
    match match_type {
        WindowMatchType::Substring => lowercase_text(search_string),
        WindowMatchType::ExactMatch => search_string,
    }
}

/// The comparison of a title text with a prepared search string.
pub open spec fn text_matches(
    window_text: Seq<char>,
    search_string: Seq<char>,
    match_type: WindowMatchType,
) -> bool {
    match match_type {
        WindowMatchType::Substring => contains_text(window_text, search_string),
        WindowMatchType::ExactMatch => window_text == search_string,
    }
}

/// A window is a match for a prepared search string when it is visible and
/// its title compares as the match type asks.
pub open spec fn window_matches(
    window: WindowState,
    search_string: Seq<char>,
    match_type: WindowMatchType,
) -> bool {
    window.visible && text_matches(comparison_text(window, match_type), search_string, match_type)
}

/// The window at position `at` is a match and no window before it is.
pub open spec fn is_first_match(
    windows: Seq<WindowState>,
    at: int,
    search_string: Seq<char>,
    match_type: WindowMatchType,
) -> bool {
    &&& 0 <= at < windows.len()
    &&& window_matches(windows[at], search_string, match_type)
    &&& forall|before: int|
        0 <= before < at ==> !window_matches(#[trigger] windows[before], search_string, match_type)
}

/// The window at position `at` is visible and no window before it is.
pub open spec fn is_first_visible(windows: Seq<WindowState>, at: int) -> bool {
    &&& 0 <= at < windows.len()
    &&& windows[at].visible
    &&& forall|before: int| 0 <= before < at ==> !(#[trigger] windows[before]).visible
}

/// What a result slot stands for: no window while it holds the null
/// identity, the window with that identity otherwise.
pub open spec fn slot_window(slot: isize) -> Option<WindowHandle> {
    if slot == 0 {
        None
    } else {
        Some(WindowHandle(slot))
    }
}

/// The outcome of one pass over the registry with a prepared search string:
/// the handle of the first match in enumeration order, and none where no
/// window matches or the first match carries the null identity.
pub open spec fn scan_result(
    windows: Seq<WindowState>,
    search_string: Seq<char>,
    match_type: WindowMatchType,
) -> Option<WindowHandle> {
    if exists|at: int| is_first_match(windows, at, search_string, match_type) {
        let at = choose|at: int| is_first_match(windows, at, search_string, match_type);
        slot_window(windows[at].handle.0)
    } else {
        None
    }
}

/// The window that a search string resolves to in a registry.
pub open spec fn resolved_window(
    windows: Seq<WindowState>,
    search_string: Seq<char>,
    match_type: WindowMatchType,
) -> Option<WindowHandle> {
    scan_result(windows, prepared_search(search_string, match_type), match_type)
}

/// A handle is valid in a registry when it is not the null identity and the
/// registry holds a visible window with that identity.
pub open spec fn window_is_valid(windows: Seq<WindowState>, hwnd: WindowHandle) -> bool {
    &&& hwnd.0 != 0
    &&& exists|at: int|
        0 <= at < windows.len() && (#[trigger] windows[at]).handle == hwnd && windows[at].visible
}

/// The state of one search over the registry: the prepared search string,
/// the match type, and the slot that receives the handle of the match.
pub struct SearchContext {
    search_string: String,
    match_type: WindowMatchType,
    result: isize,
}

/// The mathematical content of a [`SearchContext`].
pub struct SearchState {
    pub search_string: Seq<char>,
    pub match_type: WindowMatchType,
    pub result: isize,
}

impl View for SearchContext {
    type V = SearchState;

    closed spec fn view(&self) -> SearchState {
        SearchState {
            search_string: self.search_string@,
            match_type: self.match_type,
            result: self.result,
        }
    }
}

/// The search state after one more window was observed, and whether the
/// enumeration goes on after it.
pub open spec fn scan_step(state: SearchState, window: WindowState) -> (SearchState, bool) {
    if window_matches(window, state.search_string, state.match_type) {
        (SearchState { result: window.handle.0, ..state }, false)
    } else {
        (state, true)
    }
}

/// The search state at the end of an enumeration that hands the windows to
/// the callback one by one, in order, and ends when the callback says so or
/// the windows run out.
pub open spec fn enumeration_outcome(state: SearchState, windows: Seq<WindowState>) -> SearchState
    decreases windows.len(),
{
    if windows.len() == 0 {
        state
    } else if scan_step(state, windows[0]).1 {
        enumeration_outcome(scan_step(state, windows[0]).0, windows.drop_first())
    } else {
        scan_step(state, windows[0]).0
    }
}

impl SearchContext {
    /// Starts a search: the search string is prepared for the match type and
    /// the result slot holds the null identity.
    pub fn new(search_string: &str, match_type: WindowMatchType) -> (context: Self)
        ensures
            context@ == (SearchState {
                search_string: prepared_search(search_string@, match_type),
                match_type,
                result: 0,
            }),
            search_string@.len() == 0 ==> context@.search_string.len() == 0,
    {
        let prepared = match match_type {
            WindowMatchType::Substring => to_lowercase(search_string),
            WindowMatchType::ExactMatch => search_string.to_owned(),
        };
        SearchContext { search_string: prepared, match_type, result: 0 }
    }

    /// The window that the search has settled on so far.
    pub fn result(&self) -> (found: Option<WindowHandle>)
        ensures
            found == slot_window(self@.result),
    {
        if self.result == 0 {
            None
        } else {
            Some(WindowHandle(self.result))
        }
    }
}

/// Tells whether a title text matches a prepared search string: by
/// containment for `Substring`, by equality for `ExactMatch`. Case folding
/// is the caller's part: for `Substring` both texts are expected in
/// lowercase.
pub fn title_matches(window_text: &str, search_string: &str, match_type: WindowMatchType) -> (is_match:
    bool)
    ensures
        is_match == text_matches(window_text@, search_string@, match_type),
{
    match match_type {
        WindowMatchType::Substring => contains(window_text, search_string),
        WindowMatchType::ExactMatch => {
            // Equality is specified for owned strings, not for slices.
            let window_text = window_text.to_owned();
            let search_string = search_string.to_owned();
            window_text == search_string
        },
    }
}

/// The title of a window as text. At most `TITLE_BUFFER_LEN` code units of
/// the title are retrieved; they are decoded lossily, so that a malformed
/// title still yields a text.
pub fn get_window_title(window: &WindowSnapshot) -> (title: String)
    ensures
        title@ == window_title(window@),
{
    let units = window.title.as_slice();
    if units.len() > TITLE_BUFFER_LEN {
        decode_utf16_lossy(slice_subrange(units, 0, TITLE_BUFFER_LEN))
    } else {
        decode_utf16_lossy(units)
    }
}

/// Observes one window during an enumeration of the registry and tells
/// whether the enumeration goes on.
///
/// A window that is not visible is passed over without a look at its title.
/// A visible window whose title matches ends the enumeration and leaves its
/// identity in the result slot of `context`; any other window leaves
/// `context` as it was.
pub fn window_enumeration_callback(context: &mut SearchContext, window: &WindowSnapshot) -> (keep_going:
    bool)
    ensures
        final(context)@ == scan_step(old(context)@, window@).0,
        keep_going == scan_step(old(context)@, window@).1,
{
    if !window.visible {
        return true;
    }
    let title = get_window_title(window);
    let window_text = match context.match_type {
        WindowMatchType::Substring => to_lowercase(title.as_str()),
        WindowMatchType::ExactMatch => title,
    };
    let is_match = title_matches(
        window_text.as_str(),
        context.search_string.as_str(),
        context.match_type,
    );
    if is_match {
        context.result = window.handle.0;
        false
    } else {
        true
    }
}

/// Resolves a search string to a window by one pass over the registry in
/// enumeration order. The first visible window whose title matches wins;
/// there is no ranking among several matches.
pub fn get_window_by_string_with_options(
    windows: &[WindowSnapshot],
    search_string: &str,
    match_type: WindowMatchType,
) -> (found: Option<WindowHandle>)
    ensures
        found == resolved_window(registry_view(windows@), search_string@, match_type),
        search_string@.len() == 0 && match_type == WindowMatchType::Substring ==> forall|at: int|
            #[trigger] is_first_visible(registry_view(windows@), at) ==> found == slot_window(
                registry_view(windows@)[at].handle.0,
            ),
{
    let mut context = SearchContext::new(search_string, match_type);
    let ghost registry = registry_view(windows@);
    let ghost prepared = prepared_search(search_string@, match_type);
    let mut at: usize = 0;
    let mut keep_going = true;
    while keep_going && at < windows.len()
        invariant
            at <= windows.len(),
            registry == registry_view(windows@),
            context@.search_string == prepared,
            context@.match_type == match_type,
            keep_going ==> context@.result == 0,
            keep_going ==> forall|before: int|
                0 <= before < at ==> !window_matches(#[trigger] registry[before], prepared, match_type),
            !keep_going ==> is_first_match(registry, at - 1, prepared, match_type),
            !keep_going ==> context@.result == registry[at - 1].handle.0,
        decreases windows.len() - at + if keep_going { 1int } else { 0int },
    {
        keep_going = window_enumeration_callback(&mut context, &windows[at]);
        at = at + 1;
    }
    proof {
        if !keep_going {
            lemma_first_match_decides(registry, at - 1, prepared, match_type);
        }
        if search_string@.len() == 0 && match_type == WindowMatchType::Substring {
            assert(prepared =~= Seq::<char>::empty());
            assert forall|at: int| #[trigger] is_first_visible(registry, at) implies context@.result
                == registry[at].handle.0 by {
                lemma_empty_search_finds_first_visible(registry, at);
                lemma_first_match_decides(registry, at, prepared, match_type);
            }
        }
    }
    context.result()
}

/// Resolves a search string to the first visible window whose title
/// contains it, ignoring case.
pub fn get_window_by_string(windows: &[WindowSnapshot], search_string: &str) -> (found: Option<
    WindowHandle,
>)
    ensures
        found == resolved_window(
            registry_view(windows@),
            search_string@,
            WindowMatchType::Substring,
        ),
        search_string@.len() == 0 ==> forall|at: int|
            #[trigger] is_first_visible(registry_view(windows@), at) ==> found == slot_window(
                registry_view(windows@)[at].handle.0,
            ),
{
    get_window_by_string_with_options(windows, search_string, WindowMatchType::Substring)
}

/// Resolves a search string to the first visible window whose title equals
/// it, case included.
pub fn get_window_by_exact_string(windows: &[WindowSnapshot], search_string: &str) -> (found:
    Option<WindowHandle>)
    ensures
        found == resolved_window(
            registry_view(windows@),
            search_string@,
            WindowMatchType::ExactMatch,
        ),
{
    get_window_by_string_with_options(windows, search_string, WindowMatchType::ExactMatch)
}

/// Tells whether a handle still denotes a window that can be recorded: one
/// that the registry knows and that is visible. The answer holds for the
/// registry as it was handed in and says nothing of a later moment.
pub fn is_window_valid(windows: &[WindowSnapshot], hwnd: WindowHandle) -> (valid: bool)
    ensures
        valid == window_is_valid(registry_view(windows@), hwnd),
{
    if hwnd.0 == 0 {
        return false;
    }
    let ghost registry = registry_view(windows@);
    let mut at: usize = 0;
    while at < windows.len()
        invariant
            at <= windows.len(),
            hwnd.0 != 0,
            registry == registry_view(windows@),
            forall|before: int|
                0 <= before < at ==> !((#[trigger] registry[before]).handle == hwnd
                    && registry[before].visible),
        decreases windows.len() - at,
    {
        if windows[at].handle.0 == hwnd.0 && windows[at].visible {
            assert(registry[at as int].handle == hwnd && registry[at as int].visible);
            return true;
        }
        at = at + 1;
    }
    false
}

/// The first match in enumeration order decides the outcome of a scan:
/// whatever follows it in the registry plays no part.
pub proof fn lemma_first_match_decides(
    windows: Seq<WindowState>,
    at: int,
    search_string: Seq<char>,
    match_type: WindowMatchType,
)
    requires
        is_first_match(windows, at, search_string, match_type),
    ensures
        scan_result(windows, search_string, match_type) == slot_window(windows[at].handle.0),
{
}

/// A scan over a registry in which no visible window matches finds none.
pub proof fn lemma_no_match_finds_none(
    windows: Seq<WindowState>,
    search_string: Seq<char>,
    match_type: WindowMatchType,
)
    requires
        forall|at: int|
            0 <= at < windows.len() ==> !window_matches(
                #[trigger] windows[at],
                search_string,
                match_type,
            ),
    ensures
        scan_result(windows, search_string, match_type) is None,
{
}

/// A scan that finds a window has found the first match, and it carries the
/// handle that is returned.
pub proof fn lemma_found_window_is_first_match(
    windows: Seq<WindowState>,
    search_string: Seq<char>,
    match_type: WindowMatchType,
) -> (at: int)
    requires
        scan_result(windows, search_string, match_type) is Some,
    ensures
        is_first_match(windows, at, search_string, match_type),
        scan_result(windows, search_string, match_type) == Some(windows[at].handle),
        windows[at].handle.0 != 0,
{
    choose|at: int| is_first_match(windows, at, search_string, match_type)
}

/// Whoever drives the enumeration, the callback resolves the search: an
/// enumeration that starts with an empty result slot, hands the windows of
/// the registry to the callback in order and ends when the callback says
/// so, leaves in the slot the window that the search resolves to.
pub proof fn lemma_enumeration_resolves_search(state: SearchState, windows: Seq<WindowState>)
    requires
        state.result == 0,
    ensures
        slot_window(enumeration_outcome(state, windows).result) == scan_result(
            windows,
            state.search_string,
            state.match_type,
        ),
    decreases windows.len(),
{
    let search_string = state.search_string;
    let match_type = state.match_type;
    if windows.len() == 0 {
    } else if window_matches(windows[0], search_string, match_type) {
        lemma_first_match_decides(windows, 0, search_string, match_type);
    } else {
        let rest = windows.drop_first();
        lemma_enumeration_resolves_search(state, rest);
        if exists|at: int| is_first_match(rest, at, search_string, match_type) {
            let at = choose|at: int| is_first_match(rest, at, search_string, match_type);
            assert(is_first_match(windows, at + 1, search_string, match_type)) by {
                assert forall|before: int| 0 <= before < at + 1 implies !window_matches(
                    #[trigger] windows[before],
                    search_string,
                    match_type,
                ) by {
                    if before > 0 {
                        assert(windows[before] == rest[before - 1]);
                    }
                }
            }
            lemma_first_match_decides(rest, at, search_string, match_type);
            lemma_first_match_decides(windows, at + 1, search_string, match_type);
        } else if exists|at: int| is_first_match(windows, at, search_string, match_type) {
            let at = choose|at: int| is_first_match(windows, at, search_string, match_type);
            assert(is_first_match(rest, at - 1, search_string, match_type));
        }
    }
}

/// Resolution by containment. A search under `Substring` resolves only to a
/// visible window whose lowercase title contains the lowercase search
/// string; it resolves to none where no visible window has such a title;
/// and where some visible window has and no window carries the null
/// identity, it does resolve to a window.
pub proof fn lemma_substring_resolution(windows: Seq<WindowState>, search_string: Seq<char>)
    ensures
        resolved_window(windows, search_string, WindowMatchType::Substring) matches Some(hwnd)
            ==> exists|at: int|
            0 <= at < windows.len() && (#[trigger] windows[at]).handle == hwnd
                && windows[at].visible && contains_text(
                lowercase_text(window_title(windows[at])),
                lowercase_text(search_string),
            ),
        (forall|at: int|
            0 <= at < windows.len() ==> !((#[trigger] windows[at]).visible && contains_text(
                lowercase_text(window_title(windows[at])),
                lowercase_text(search_string),
            ))) ==> resolved_window(windows, search_string, WindowMatchType::Substring) is None,
        (exists|at: int|
            0 <= at < windows.len() && (#[trigger] windows[at]).visible && contains_text(
                lowercase_text(window_title(windows[at])),
                lowercase_text(search_string),
            )) && (forall|at: int| 0 <= at < windows.len() ==> (#[trigger] windows[at]).handle.0 != 0)
            ==> resolved_window(windows, search_string, WindowMatchType::Substring) is Some,
{
    let match_type = WindowMatchType::Substring;
    let prepared = prepared_search(search_string, match_type);
    if scan_result(windows, prepared, match_type) is Some {
        lemma_found_window_is_first_match(windows, prepared, match_type);
    }
    if exists|at: int|
        0 <= at < windows.len() && (#[trigger] windows[at]).visible && contains_text(
            lowercase_text(window_title(windows[at])),
            lowercase_text(search_string),
        ) {
        let some = choose|at: int|
            0 <= at < windows.len() && (#[trigger] windows[at]).visible && contains_text(
                lowercase_text(window_title(windows[at])),
                lowercase_text(search_string),
            );
        let first = lemma_some_match_has_a_first(windows, some, prepared, match_type);
        lemma_first_match_decides(windows, first, prepared, match_type);
    }
}

/// Resolution by equality. A search under `ExactMatch` resolves only to a
/// visible window whose title equals the search string character for
/// character, and to none where no visible window has that title.
pub proof fn lemma_exact_resolution(windows: Seq<WindowState>, search_string: Seq<char>)
    ensures
        resolved_window(windows, search_string, WindowMatchType::ExactMatch) matches Some(hwnd)
            ==> exists|at: int|
            0 <= at < windows.len() && (#[trigger] windows[at]).handle == hwnd
                && windows[at].visible && window_title(windows[at]) == search_string,
        (forall|at: int|
            0 <= at < windows.len() ==> !((#[trigger] windows[at]).visible && window_title(
                windows[at],
            ) == search_string)) ==> resolved_window(
            windows,
            search_string,
            WindowMatchType::ExactMatch,
        ) is None,
{
    let match_type = WindowMatchType::ExactMatch;
    if scan_result(windows, search_string, match_type) is Some {
        lemma_found_window_is_first_match(windows, search_string, match_type);
    }
}

/// Where some window matches, one of the windows up to it is the first
/// match.
pub proof fn lemma_some_match_has_a_first(
    windows: Seq<WindowState>,
    at: int,
    search_string: Seq<char>,
    match_type: WindowMatchType,
) -> (first: int)
    requires
        0 <= at < windows.len(),
        window_matches(windows[at], search_string, match_type),
    ensures
        0 <= first <= at,
        is_first_match(windows, first, search_string, match_type),
    decreases at,
{
    if exists|before: int|
        0 <= before < at && window_matches(#[trigger] windows[before], search_string, match_type) {
        let before = choose|before: int|
            0 <= before < at && window_matches(
                #[trigger] windows[before],
                search_string,
                match_type,
            );
        lemma_some_match_has_a_first(windows, before, search_string, match_type)
    } else {
        at
    }
}

/// An empty prepared search string is contained in every title, so that
/// under `Substring` the first visible window is the first match.
pub proof fn lemma_empty_search_finds_first_visible(windows: Seq<WindowState>, at: int)
    requires
        is_first_visible(windows, at),
    ensures
        is_first_match(windows, at, Seq::<char>::empty(), WindowMatchType::Substring),
{
    lemma_empty_text_is_contained(comparison_text(windows[at], WindowMatchType::Substring));
}

/// Under `ExactMatch` an empty search string matches exactly the visible
/// windows whose title is empty.
pub proof fn lemma_empty_exact_search_matches_empty_titles(window: WindowState)
    ensures
        window_matches(window, Seq::<char>::empty(), WindowMatchType::ExactMatch) <==> (
        window.visible && window_title(window).len() == 0),
{
    if window_title(window).len() == 0 {
        assert(window_title(window) =~= Seq::<char>::empty());
    }
}

/// A window that is not visible is never a match, whatever its title.
pub proof fn lemma_hidden_window_never_matches(
    window: WindowState,
    search_string: Seq<char>,
    match_type: WindowMatchType,
)
    requires
        !window.visible,
    ensures
        !window_matches(window, search_string, match_type),
{
}

/// A handle is not valid where the registry holds no window with that
/// identity, and not valid where every window with that identity is hidden.
pub proof fn lemma_gone_or_hidden_window_is_invalid(windows: Seq<WindowState>, hwnd: WindowHandle)
    ensures
        (forall|at: int| 0 <= at < windows.len() ==> (#[trigger] windows[at]).handle != hwnd)
            ==> !window_is_valid(windows, hwnd),
        (forall|at: int|
            0 <= at < windows.len() && (#[trigger] windows[at]).handle == hwnd
                ==> !windows[at].visible) ==> !window_is_valid(windows, hwnd),
        hwnd.0 == 0 ==> !window_is_valid(windows, hwnd),
{
}

/// A window that a search resolves to is valid in the registry that was
/// searched.
pub proof fn lemma_resolved_window_is_valid(
    windows: Seq<WindowState>,
    search_string: Seq<char>,
    match_type: WindowMatchType,
)
    ensures
        resolved_window(windows, search_string, match_type) matches Some(hwnd)
            ==> window_is_valid(windows, hwnd),
{
    let prepared = prepared_search(search_string, match_type);
    if scan_result(windows, prepared, match_type) is Some {
        lemma_found_window_is_first_match(windows, prepared, match_type);
    }
}

} // verus!
