use vstd::prelude::*;
use crate::color::{is_color_text, is_valid_color};
use crate::config::{lemma_shipped_colors_valid, WmSettings, FOCUS_COLOR, GREY_COLOR};
use crate::texts::texts;

verus! {

/// Height of the status bar in pixels.
pub const BAR_HEIGHT: usize = 18;

/// Font of the status bar.
pub const BAR_FONT: &'static str = "xos4 Terminus";

/// Point size of the status bar's font.
pub const BAR_POINT_SIZE: i32 = 12;

/// Padding, in pixels, on each side of a piece of text in the status bar.
pub const BAR_PADDING_PX: u32 = 4;

/// How the status bar looks, and the workspaces it lists.
#[derive(Clone, Debug)]
pub struct BarStyle {
    pub height: usize,
    pub font: String,
    pub point_size: i32,
    /// Colour of the text.
    pub fg: String,
    /// Colour behind the text.
    pub bg: String,
    /// Colour that marks the focused workspace.
    pub highlight: String,
    /// Colour of a workspace without windows.
    pub empty_ws: String,
    pub padding_px: u32,
    pub workspaces: Vec<String>,
}

/// One hook run by the window manager, in the order of the hook list.
#[derive(Clone, Debug)]
pub enum Hook {
    /// Shows the symbol of the current layout as the root window's name.
    LayoutSymbolAsRootName,
    /// Draws a status bar.
    StatusBar(BarStyle),
}

/// Which colour of a status bar the window manager cannot read.
#[derive(Clone, Copy, Debug, PartialEq, Eq, Structural)]
pub enum BarError {
    BadForeground,
    BadBackground,
    BadHighlight,
    BadEmptyWorkspace,
}

/// All four colours of `b` can be read.
pub open spec fn bar_colors_ok(b: BarStyle) -> bool {
    &&& is_color_text(b.fg@)
    &&& is_color_text(b.bg@)
    &&& is_color_text(b.highlight@)
    &&& is_color_text(b.empty_ws@)
}

fn copy_names(names: &Vec<String>) -> (r: Vec<String>)
    ensures
        texts(r@) == texts(names@),
{
    let mut r: Vec<String> = Vec::new();
    let mut k: usize = 0;
    while k < names.len()
        invariant
            k <= names@.len(),
            r@.len() == k,
            forall|j: int| 0 <= j < k ==> #[trigger] r@[j]@ == names@[j]@,
        decreases names@.len() - k,
    {
        r.push(names[k].clone());
        k = k + 1;
    }
    assert(texts(r@) =~= texts(names@));
    r
}

/// The hooks of this desktop: first the layout symbol as the root window's
/// name, then a status bar that lists the workspaces of `config`.
pub fn create_hooks(config: &WmSettings) -> (r: Vec<Hook>)
    ensures
        r@.len() == 2,
        r@[0] is LayoutSymbolAsRootName,
        r@[1] matches Hook::StatusBar(b) && {
            &&& b.height == BAR_HEIGHT
            &&& b.font@ == BAR_FONT@
            &&& b.point_size == BAR_POINT_SIZE
            &&& b.fg@ == FOCUS_COLOR@
            &&& b.bg@ == GREY_COLOR@
            &&& b.highlight@ == GREY_COLOR@
            &&& b.empty_ws@ == GREY_COLOR@
            &&& b.padding_px == BAR_PADDING_PX
            &&& texts(b.workspaces@) == texts(config.workspaces@)
            &&& bar_colors_ok(b)
        },
{
    let bar = BarStyle {
        height: BAR_HEIGHT,
        font: BAR_FONT.to_owned(),
        point_size: BAR_POINT_SIZE,
        fg: FOCUS_COLOR.to_owned(),
        bg: GREY_COLOR.to_owned(),
        highlight: GREY_COLOR.to_owned(),
        empty_ws: GREY_COLOR.to_owned(),
        padding_px: BAR_PADDING_PX,
        workspaces: copy_names(&config.workspaces),
    };
    proof {
        lemma_shipped_colors_valid();
    }
    vec![Hook::LayoutSymbolAsRootName, Hook::StatusBar(bar)]
}

/// Checks the colours of a status bar, in the order foreground, background,
/// highlight, empty workspace; the error names the first that cannot be read.
pub fn check_bar_style(b: &BarStyle) -> (r: Result<(), BarError>)
    ensures
        r is Ok <==> bar_colors_ok(*b),
        r == Err::<(), BarError>(BarError::BadForeground) <==> !is_color_text(b.fg@),
        r == Err::<(), BarError>(BarError::BadBackground) <==> (is_color_text(b.fg@)
            && !is_color_text(b.bg@)),
        r == Err::<(), BarError>(BarError::BadHighlight) <==> (is_color_text(b.fg@)
            && is_color_text(b.bg@) && !is_color_text(b.highlight@)),
        r == Err::<(), BarError>(BarError::BadEmptyWorkspace) <==> (is_color_text(b.fg@)
            && is_color_text(b.bg@) && is_color_text(b.highlight@) && !is_color_text(
            b.empty_ws@,
        )),
{
    if !is_valid_color(b.fg.as_str()) {
        return Err(BarError::BadForeground);
    }
    if !is_valid_color(b.bg.as_str()) {
        return Err(BarError::BadBackground);
    }
    if !is_valid_color(b.highlight.as_str()) {
        return Err(BarError::BadHighlight);
    }
    if !is_valid_color(b.empty_ws.as_str()) {
        return Err(BarError::BadEmptyWorkspace);
    }
    Ok(())
}

} // verus!
