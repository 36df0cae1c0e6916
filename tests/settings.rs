use wmconfig::bindings::{
    check_bindings, create_bindings, workspace_bindings, Action, BindingError, Change, Command,
    Direction, KeyBinding,
};
use wmconfig::color::is_valid_color;
use wmconfig::config::{
    check_config, create_config, workspace_names, ConfigError, LayoutKind, LayoutSpec,
};
use wmconfig::hooks::{check_bar_style, create_hooks, BarError, Hook};
use wmconfig::texts::find_duplicate;

fn strings(v: &[&str]) -> Vec<String> {
    v.iter().map(|s| s.to_string()).collect()
}

#[test]
fn shipped_settings_values() {
    let c = create_config();
    assert_eq!(c.workspaces, strings(&["1", "2", "3", "4", "5", "6"]));
    assert_eq!(c.floating_classes, strings(&["dmenu"]));
    assert_eq!(c.focused_border, "#55AAAA");
    assert_eq!(c.unfocused_border, "#9EEEEE");
    assert_eq!(c.border_px, 4);
    assert_eq!(c.gap_px, 8);
    assert!(c.show_bar);
    assert_eq!(c.layouts.len(), 2);
    assert_eq!(c.layouts[0].symbol, "[T]");
    assert_eq!(c.layouts[0].kind, LayoutKind::SideStack);
    assert_eq!(c.layouts[0].max_main, 1);
    assert_eq!(c.layouts[0].ratio_percent, 55);
    assert_eq!(c.layouts[1].symbol, "[F]");
    assert_eq!(c.layouts[1].kind, LayoutKind::Floating);
}

#[test]
fn shipped_settings_pass_checks() {
    assert_eq!(check_config(&create_config()), Ok(()));
}

#[test]
fn workspace_names_are_digits() {
    assert_eq!(workspace_names(), strings(&["1", "2", "3", "4", "5", "6"]));
}

#[test]
fn no_workspaces_rejected() {
    let mut c = create_config();
    c.workspaces = Vec::new();
    assert_eq!(check_config(&c), Err(ConfigError::NoWorkspaces));
}

#[test]
fn repeated_workspace_rejected() {
    let mut c = create_config();
    c.workspaces = strings(&["a", "b", "c", "b", "a"]);
    assert_eq!(
        check_config(&c),
        Err(ConfigError::DuplicateWorkspace { first: 1, second: 3 })
    );
}

#[test]
fn no_layouts_rejected() {
    let mut c = create_config();
    c.layouts = Vec::new();
    assert_eq!(check_config(&c), Err(ConfigError::NoLayouts));
}

#[test]
fn single_layout_accepted() {
    let mut c = create_config();
    c.layouts = vec![LayoutSpec {
        symbol: "[F]".to_string(),
        kind: LayoutKind::Floating,
        max_main: 1,
        ratio_percent: 100,
    }];
    assert_eq!(check_config(&c), Ok(()));
}

#[test]
fn bad_focused_border_rejected() {
    let mut c = create_config();
    c.focused_border = "#12345".to_string();
    assert_eq!(check_config(&c), Err(ConfigError::BadFocusedBorder));
}

#[test]
fn bad_unfocused_border_rejected() {
    let mut c = create_config();
    c.unfocused_border = "#GGGGGG".to_string();
    assert_eq!(check_config(&c), Err(ConfigError::BadUnfocusedBorder));
}

#[test]
fn empty_list_has_no_duplicate() {
    assert_eq!(find_duplicate(&Vec::new()), None);
}

#[test]
fn earliest_repeat_found() {
    let v = strings(&["x", "y", "y", "x"]);
    assert_eq!(find_duplicate(&v), Some((1, 2)));
}

#[test]
fn color_texts() {
    assert!(is_valid_color("#9EEEEE"));
    assert!(is_valid_color("#55aaaa"));
    assert!(is_valid_color("#55AAAAFF"));
    assert!(is_valid_color("1234567"));
    assert!(!is_valid_color("#12345"));
    assert!(!is_valid_color("9EEEEE"));
    assert!(!is_valid_color("#ZZZZZZ"));
    assert!(!is_valid_color(""));
    assert!(!is_valid_color("#"));
    assert!(!is_valid_color("#1234567"));
}

#[test]
fn shipped_bindings_table() {
    let b = create_bindings();
    assert_eq!(b.len(), 36);
    assert_eq!(b[0].chord, "M-semicolon");
    assert!(matches!(&b[0].action, Action::Spawn(p) if p == "dmenu_run"));
    assert!(matches!(&b[4].action, Action::Spawn(p) if p == "xscreensaver-command -lock"));
    assert_eq!(b[7].chord, "M-S-j");
    assert!(matches!(
        b[7].action,
        Action::Run(Command::DragClient(Direction::Forward))
    ));
    assert_eq!(b[20].chord, "M-A-Right");
    assert!(matches!(
        b[20].action,
        Action::Run(Command::UpdateMainRatio(Change::More))
    ));
    assert_eq!(b[24].chord, "M-1");
    assert!(matches!(b[24].action, Action::Run(Command::FocusWorkspace(0))));
    assert_eq!(b[35].chord, "M-S-6");
    assert!(matches!(
        b[35].action,
        Action::Run(Command::ClientToWorkspace(5))
    ));
}

#[test]
fn shipped_bindings_have_unique_chords() {
    assert_eq!(check_bindings(&create_bindings()), Ok(()));
}

#[test]
fn repeated_chord_rejected() {
    let mut b = create_bindings();
    b.push(KeyBinding {
        chord: "M-Tab".to_string(),
        action: Action::Run(Command::Exit),
    });
    assert_eq!(
        check_bindings(&b),
        Err(BindingError::DuplicateChord { first: 11, second: 36 })
    );
}

#[test]
fn workspace_chords_join_name() {
    let b = workspace_bindings(&strings(&["web", "mail"]));
    assert_eq!(b.len(), 4);
    assert_eq!(b[0].chord, "M-web");
    assert_eq!(b[1].chord, "M-S-web");
    assert_eq!(b[2].chord, "M-mail");
    assert_eq!(b[3].chord, "M-S-mail");
    assert!(matches!(b[3].action, Action::Run(Command::ClientToWorkspace(1))));
}

#[test]
fn shipped_hooks() {
    let h = create_hooks(&create_config());
    assert_eq!(h.len(), 2);
    assert!(matches!(h[0], Hook::LayoutSymbolAsRootName));
    match &h[1] {
        Hook::StatusBar(b) => {
            assert_eq!(b.height, 18);
            assert_eq!(b.font, "xos4 Terminus");
            assert_eq!(b.point_size, 12);
            assert_eq!(b.fg, "#55AAAA");
            assert_eq!(b.bg, "#4D4D4D");
            assert_eq!(b.padding_px, 4);
            assert_eq!(b.workspaces, strings(&["1", "2", "3", "4", "5", "6"]));
            assert_eq!(check_bar_style(b), Ok(()));
        }
        _ => panic!("second hook is not a status bar"),
    }
}

#[test]
fn bar_color_errors() {
    let h = create_hooks(&create_config());
    let base = match &h[1] {
        Hook::StatusBar(b) => b.clone(),
        _ => panic!("second hook is not a status bar"),
    };
    let mut b = base.clone();
    b.fg = "red".to_string();
    assert_eq!(check_bar_style(&b), Err(BarError::BadForeground));
    let mut b = base.clone();
    b.bg = "#4D4D4".to_string();
    assert_eq!(check_bar_style(&b), Err(BarError::BadBackground));
    let mut b = base.clone();
    b.highlight = "#4D4D4DX".to_string();
    assert_eq!(check_bar_style(&b), Err(BarError::BadHighlight));
    let mut b = base;
    b.empty_ws = "#-4D4D4D".to_string();
    assert_eq!(check_bar_style(&b), Err(BarError::BadEmptyWorkspace));
}
