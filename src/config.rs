use vstd::prelude::*;
use crate::color::{is_color_text, is_valid_color, lemma_color_text_of_six};
use crate::texts::{all_distinct, find_duplicate, texts};

verus! {

/// Number of windows kept in the main area of the tiled layout.
pub const MAX_MAIN: u32 = 1;

/// Share of the screen, in percent, given to the main area of the tiled layout.
pub const MAIN_RATIO_PERCENT: u32 = 55;

/// Border colour of the focused window.
pub const FOCUS_COLOR: &'static str = "#55AAAA";

/// Border colour of the other windows.
pub const NORMAL_COLOR: &'static str = "#9EEEEE";

/// Background colour of the status bar.
pub const GREY_COLOR: &'static str = "#4D4D4D";

/// How a layout arranges the windows of a workspace.
#[derive(Clone, Copy, Debug, PartialEq, Eq, Structural)]
pub enum LayoutKind {
    /// A main area beside a stack of the other windows.
    SideStack,
    /// Windows keep the place and size they chose.
    Floating,
}

/// One entry of the layout rotation.
#[derive(Clone, Debug)]
pub struct LayoutSpec {
    /// Short text shown for the layout.
    pub symbol: String,
    pub kind: LayoutKind,
    /// Number of windows in the main area.
    pub max_main: u32,
    /// Share of the screen, in percent, given to the main area.
    pub ratio_percent: u32,
}

/// The settings handed to the window manager at start-up.
#[derive(Clone, Debug)]
pub struct WmSettings {
    pub workspaces: Vec<String>,
    /// Window classes that always float.
    pub floating_classes: Vec<String>,
    pub focused_border: String,
    pub unfocused_border: String,
    pub border_px: u32,
    pub gap_px: u32,
    pub show_bar: bool,
    pub layouts: Vec<LayoutSpec>,
}

/// Why a set of settings cannot be used.
#[derive(Clone, Copy, Debug, PartialEq, Eq, Structural)]
pub enum ConfigError {
    NoWorkspaces,
    /// Workspace `second` repeats the name of workspace `first`.
    DuplicateWorkspace { first: usize, second: usize },
    NoLayouts,
    BadFocusedBorder,
    BadUnfocusedBorder,
}

/// The workspace names: the digits one to six.
pub open spec fn default_workspace_names() -> Seq<Seq<char>> {
    seq![seq!['1'], seq!['2'], seq!['3'], seq!['4'], seq!['5'], seq!['6']]
}

/// Whether `s` passes every check that [`check_config`] makes.
pub open spec fn settings_ok(s: WmSettings) -> bool {
    &&& s.workspaces@.len() > 0
    &&& all_distinct(texts(s.workspaces@))
    &&& s.layouts@.len() > 0
    &&& is_color_text(s.focused_border@)
    &&& is_color_text(s.unfocused_border@)
}

/// The names of the workspaces, in order.
pub fn workspace_names() -> (r: Vec<String>)
    ensures
        texts(r@) == default_workspace_names(),
{
    let r: Vec<String> = vec![
        "1".to_owned(),
        "2".to_owned(),
        "3".to_owned(),
        "4".to_owned(),
        "5".to_owned(),
        "6".to_owned(),
    ];
    proof {
        reveal_strlit("1");
        reveal_strlit("2");
        reveal_strlit("3");
        reveal_strlit("4");
        reveal_strlit("5");
        reveal_strlit("6");
        assert(r@[0]@ =~= seq!['1']);
        assert(r@[1]@ =~= seq!['2']);
        assert(r@[2]@ =~= seq!['3']);
        assert(r@[3]@ =~= seq!['4']);
        assert(r@[4]@ =~= seq!['5']);
        assert(r@[5]@ =~= seq!['6']);
        assert(texts(r@) =~= default_workspace_names());
    }
    r
}

/// The settings of this desktop: six workspaces named by digit, `dmenu`
/// floating, four-pixel borders, eight-pixel gaps, a status bar, and a
/// rotation of a side-stack layout and a floating one.
pub fn create_config() -> (r: WmSettings)
    ensures
        texts(r.workspaces@) == default_workspace_names(),
        texts(r.floating_classes@) == seq![seq!['d', 'm', 'e', 'n', 'u']],
        r.focused_border@ == FOCUS_COLOR@,
        r.unfocused_border@ == NORMAL_COLOR@,
        r.border_px == 4,
        r.gap_px == 8,
        r.show_bar,
        r.layouts@.len() == 2,
        r.layouts@[0].symbol@ == seq!['[', 'T', ']'],
        r.layouts@[0].kind == LayoutKind::SideStack,
        r.layouts@[0].max_main == MAX_MAIN,
        r.layouts@[0].ratio_percent == MAIN_RATIO_PERCENT,
        r.layouts@[1].symbol@ == seq!['[', 'F', ']'],
        r.layouts@[1].kind == LayoutKind::Floating,
        r.layouts@[1].max_main == MAX_MAIN,
        r.layouts@[1].ratio_percent == 100,
        settings_ok(r),
{
    let workspaces = workspace_names();
    let floating_classes: Vec<String> = vec!["dmenu".to_owned()];
    let layouts: Vec<LayoutSpec> = vec![
        LayoutSpec {
            symbol: "[T]".to_owned(),
            kind: LayoutKind::SideStack,
            max_main: MAX_MAIN,
            ratio_percent: MAIN_RATIO_PERCENT,
        },
        LayoutSpec {
            symbol: "[F]".to_owned(),
            kind: LayoutKind::Floating,
            max_main: MAX_MAIN,
            ratio_percent: 100,
        },
    ];
    proof {
        reveal_strlit("dmenu");
        reveal_strlit("[T]");
        reveal_strlit("[F]");
        assert(layouts@[0].symbol@ =~= seq!['[', 'T', ']']);
        assert(layouts@[1].symbol@ =~= seq!['[', 'F', ']']);
        assert(floating_classes@[0]@ =~= seq!['d', 'm', 'e', 'n', 'u']);
        lemma_shipped_colors_valid();
        let names = default_workspace_names();
        assert forall|a: int, b: int| 0 <= a < b < names.len() implies names[a] != names[b] by {
            assert(names[a][0] != names[b][0]);
        }
        assert(texts(floating_classes@) =~= seq![seq!['d', 'm', 'e', 'n', 'u']]);
    }
    WmSettings {
        workspaces,
        floating_classes,
        focused_border: FOCUS_COLOR.to_owned(),
        unfocused_border: NORMAL_COLOR.to_owned(),
        border_px: 4,
        gap_px: 8,
        show_bar: true,
        layouts,
    }
}

pub(crate) proof fn lemma_shipped_colors_valid()
    ensures
        is_color_text(FOCUS_COLOR@),
        is_color_text(NORMAL_COLOR@),
        is_color_text(GREY_COLOR@),
{
    reveal_strlit("#55AAAA");
    reveal_strlit("#9EEEEE");
    reveal_strlit("#4D4D4D");
    lemma_color_text_of_six(FOCUS_COLOR@);
    lemma_color_text_of_six(NORMAL_COLOR@);
    lemma_color_text_of_six(GREY_COLOR@);
}

/// Checks settings before they are handed to the window manager, in this
/// order: at least one workspace, no repeated workspace name, at least one
/// layout, then both border colours.
pub fn check_config(s: &WmSettings) -> (r: Result<(), ConfigError>)
    ensures
        r is Ok <==> settings_ok(*s),
        r == Err::<(), ConfigError>(ConfigError::NoWorkspaces) <==> s.workspaces@.len() == 0,
        r matches Err(ConfigError::DuplicateWorkspace { first, second }) ==> {
            &&& first < second < s.workspaces@.len()
            &&& s.workspaces@[first as int]@ == s.workspaces@[second as int]@
            &&& crate::texts::distinct_below(texts(s.workspaces@), second as int)
        },
        (r is Err && r->Err_0 is DuplicateWorkspace) <==> (s.workspaces@.len() > 0 && !all_distinct(
            texts(s.workspaces@),
        )),
        r == Err::<(), ConfigError>(ConfigError::NoLayouts) <==> (s.workspaces@.len() > 0
            && all_distinct(texts(s.workspaces@)) && s.layouts@.len() == 0),
        r == Err::<(), ConfigError>(ConfigError::BadFocusedBorder) <==> (s.workspaces@.len() > 0
            && all_distinct(texts(s.workspaces@)) && s.layouts@.len() > 0 && !is_color_text(
            s.focused_border@,
        )),
        r == Err::<(), ConfigError>(ConfigError::BadUnfocusedBorder) <==> (s.workspaces@.len() > 0
            && all_distinct(texts(s.workspaces@)) && s.layouts@.len() > 0 && is_color_text(
            s.focused_border@,
        ) && !is_color_text(s.unfocused_border@)),
{
    if s.workspaces.len() == 0 {
        return Err(ConfigError::NoWorkspaces);
    }
    match find_duplicate(&s.workspaces) {
        Some((first, second)) => {
            return Err(ConfigError::DuplicateWorkspace { first, second });
        },
        None => {},
    }
    if s.layouts.len() == 0 {
        return Err(ConfigError::NoLayouts);
    }
    if !is_valid_color(s.focused_border.as_str()) {
        return Err(ConfigError::BadFocusedBorder);
    }
    if !is_valid_color(s.unfocused_border.as_str()) {
        return Err(ConfigError::BadUnfocusedBorder);
    }
    Ok(())
}

} // verus!
