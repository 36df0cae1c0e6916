use vstd::prelude::*;
use crate::config::{default_workspace_names, workspace_names};
use crate::texts::{all_distinct, distinct_below, find_duplicate, texts};

verus! {

/// Program started by the launcher binding.
pub const LAUNCHER: &'static str = "dmenu_run";

/// Terminal emulator.
pub const TERMINAL: &'static str = "alacritty";

/// Web browser.
pub const BROWSER: &'static str = "firefox";

/// Password picker.
pub const PASSWORDS: &'static str = "passmenu";

/// Screen locker, with its argument.
pub const LOCKER: &'static str = "xscreensaver-command -lock";

/// Which way a cycling command moves.
#[derive(Clone, Copy, Debug, PartialEq, Eq, Structural)]
pub enum Direction {
    Forward,
    Backward,
}

/// Which way an adjusting command changes a quantity.
#[derive(Clone, Copy, Debug, PartialEq, Eq, Structural)]
pub enum Change {
    More,
    Less,
}

/// An action that the window manager itself carries out.
#[derive(Clone, Copy, Debug, PartialEq, Eq, Structural)]
pub enum Command {
    CycleClient(Direction),
    DragClient(Direction),
    KillClient,
    /// Toggle fullscreen on the focused window.
    ToggleClientFullscreen,
    ToggleWorkspace,
    CycleScreen(Direction),
    DragWorkspace(Direction),
    CycleLayout(Direction),
    UpdateMaxMain(Change),
    UpdateMainRatio(Change),
    DetectScreens,
    Exit,
    /// Show the workspace at this index.
    FocusWorkspace(usize),
    /// Move the focused window to the workspace at this index.
    ClientToWorkspace(usize),
}

/// What a key chord does.
#[derive(Clone, Debug)]
pub enum Action {
    /// Start an outside program from this command line.
    Spawn(String),
    Run(Command),
}

/// The mathematical value of an [`Action`].
pub enum ActionView {
    Spawn(Seq<char>),
    Run(Command),
}

impl Action {
    pub open spec fn view(&self) -> ActionView {
        match self {
            Action::Spawn(s) => ActionView::Spawn(s@),
            Action::Run(c) => ActionView::Run(*c),
        }
    }
}

/// A key chord, written as modifiers and a key joined by `-` (`M-S-j`),
/// and what it does.
#[derive(Clone, Debug)]
pub struct KeyBinding {
    pub chord: String,
    pub action: Action,
}

/// Why a binding table cannot be used.
#[derive(Clone, Copy, Debug, PartialEq, Eq, Structural)]
pub enum BindingError {
    /// Binding `second` uses the chord of binding `first`.
    DuplicateChord { first: usize, second: usize },
}

/// The chords of a binding table, in order.
pub open spec fn chord_texts(b: Seq<KeyBinding>) -> Seq<Seq<char>> {
    b.map_values(|k: KeyBinding| k.chord@)
}

/// Relies on `std::format!`: the two texts one after the other.
#[verifier::external_body]
fn join_text(a: &str, b: &str) -> (r: String)
    ensures
        r@ == a@ + b@,
{
    format!("{}{}", a, b)
}

fn bind(chord: &str, action: Action) -> (r: KeyBinding)
    ensures
        r.chord@ == chord@,
        r.action@ == action@,
{
    KeyBinding { chord: chord.to_owned(), action }
}

fn spawn(program: &str) -> (r: Action)
    ensures
        r@ == ActionView::Spawn(program@),
{
    Action::Spawn(program.to_owned())
}

/// For each workspace name `n`, at index `k`, the chord `M-n` that shows
/// workspace `k` and then the chord `M-S-n` that moves the focused window
/// there.
pub fn workspace_bindings(names: &Vec<String>) -> (r: Vec<KeyBinding>)
    requires
        names@.len() * 2 <= usize::MAX,
    ensures
        r@.len() == 2 * names@.len(),
        forall|k: int|
            0 <= k < names@.len() ==> {
                &&& (#[trigger] r@[2 * k]).chord@ == "M-"@ + names@[k]@
                &&& r@[2 * k].action@ == ActionView::Run(Command::FocusWorkspace(k as usize))
                &&& r@[2 * k + 1].chord@ == "M-S-"@ + names@[k]@
                &&& r@[2 * k + 1].action@ == ActionView::Run(
                    Command::ClientToWorkspace(k as usize),
                )
            },
{
    let mut r: Vec<KeyBinding> = Vec::new();
    let mut k: usize = 0;
    while k < names.len()
        invariant
            k <= names@.len(),
            names@.len() * 2 <= usize::MAX,
            r@.len() == 2 * k,
            forall|j: int|
                0 <= j < k ==> {
                    &&& (#[trigger] r@[2 * j]).chord@ == "M-"@ + names@[j]@
                    &&& r@[2 * j].action@ == ActionView::Run(Command::FocusWorkspace(j as usize))
                    &&& r@[2 * j + 1].chord@ == "M-S-"@ + names@[j]@
                    &&& r@[2 * j + 1].action@ == ActionView::Run(
                        Command::ClientToWorkspace(j as usize),
                    )
                },
        decreases names@.len() - k,
    {
        let name = names[k].as_str();
        let ghost prev = r@;
        r.push(KeyBinding { chord: join_text("M-", name), action: Action::Run(Command::FocusWorkspace(k)) });
        r.push(
            KeyBinding {
                chord: join_text("M-S-", name),
                action: Action::Run(Command::ClientToWorkspace(k)),
            },
        );
        proof {
            assert forall|j: int| 0 <= j < k + 1 implies {
                &&& (#[trigger] r@[2 * j]).chord@ == "M-"@ + names@[j]@
                &&& r@[2 * j].action@ == ActionView::Run(Command::FocusWorkspace(j as usize))
                &&& r@[2 * j + 1].chord@ == "M-S-"@ + names@[j]@
                &&& r@[2 * j + 1].action@ == ActionView::Run(
                    Command::ClientToWorkspace(j as usize),
                )
            } by {
                if j < k {
                    assert(r@[2 * j] == prev[2 * j]);
                    assert(r@[2 * j + 1] == prev[2 * j + 1]);
                }
            }
        }
        k = k + 1;
    }
    r
}

/// The bindings that do not depend on the workspaces: launching programs,
/// then managing windows, workspaces, screens and layouts.
pub open spec fn fixed_bindings() -> Seq<(Seq<char>, ActionView)> {
    seq![
        ("M-semicolon"@, ActionView::Spawn(LAUNCHER@)),
        ("M-Return"@, ActionView::Spawn(TERMINAL@)),
        ("M-f"@, ActionView::Spawn(BROWSER@)),
        ("M-p"@, ActionView::Spawn(PASSWORDS@)),
        ("M-l"@, ActionView::Spawn(LOCKER@)),
        ("M-j"@, ActionView::Run(Command::CycleClient(Direction::Forward))),
        ("M-k"@, ActionView::Run(Command::CycleClient(Direction::Backward))),
        ("M-S-j"@, ActionView::Run(Command::DragClient(Direction::Forward))),
        ("M-S-k"@, ActionView::Run(Command::DragClient(Direction::Backward))),
        ("M-S-c"@, ActionView::Run(Command::KillClient)),
        ("M-S-f"@, ActionView::Run(Command::ToggleClientFullscreen)),
        ("M-Tab"@, ActionView::Run(Command::ToggleWorkspace)),
        ("M-bracketright"@, ActionView::Run(Command::CycleScreen(Direction::Forward))),
        ("M-bracketleft"@, ActionView::Run(Command::CycleScreen(Direction::Backward))),
        ("M-S-bracketright"@, ActionView::Run(Command::DragWorkspace(Direction::Forward))),
        ("M-S-bracketleft"@, ActionView::Run(Command::DragWorkspace(Direction::Backward))),
        ("M-grave"@, ActionView::Run(Command::CycleLayout(Direction::Forward))),
        ("M-S-grave"@, ActionView::Run(Command::CycleLayout(Direction::Backward))),
        ("M-A-Up"@, ActionView::Run(Command::UpdateMaxMain(Change::More))),
        ("M-A-Down"@, ActionView::Run(Command::UpdateMaxMain(Change::Less))),
        ("M-A-Right"@, ActionView::Run(Command::UpdateMainRatio(Change::More))),
        ("M-A-Left"@, ActionView::Run(Command::UpdateMainRatio(Change::Less))),
        ("M-A-s"@, ActionView::Run(Command::DetectScreens)),
        ("M-S-q"@, ActionView::Run(Command::Exit)),
    ]
}

/// The key bindings of this desktop: those of [`fixed_bindings`], then for
/// each workspace a chord that shows it and one that moves the focused
/// window to it.
pub fn create_bindings() -> (r: Vec<KeyBinding>)
    ensures
        r@.len() == fixed_bindings().len() + 2 * default_workspace_names().len(),
        forall|k: int|
            0 <= k < fixed_bindings().len() ==> (#[trigger] r@[k]).chord@ == fixed_bindings()[k].0
                && r@[k].action@ == fixed_bindings()[k].1,
        forall|k: int|
            0 <= k < default_workspace_names().len() ==> {
                &&& (#[trigger] r@[fixed_bindings().len() + 2 * k]).chord@ == "M-"@
                    + default_workspace_names()[k]
                &&& r@[fixed_bindings().len() + 2 * k].action@ == ActionView::Run(
                    Command::FocusWorkspace(k as usize),
                )
                &&& r@[fixed_bindings().len() + 2 * k + 1].chord@ == "M-S-"@
                    + default_workspace_names()[k]
                &&& r@[fixed_bindings().len() + 2 * k + 1].action@ == ActionView::Run(
                    Command::ClientToWorkspace(k as usize),
                )
            },
        chord_texts(r@) == shipped_chords(),
        all_distinct(chord_texts(r@)),
{
    let mut r: Vec<KeyBinding> = vec![
        bind("M-semicolon", spawn(LAUNCHER)),
        bind("M-Return", spawn(TERMINAL)),
        bind("M-f", spawn(BROWSER)),
        bind("M-p", spawn(PASSWORDS)),
        bind("M-l", spawn(LOCKER)),
        bind("M-j", Action::Run(Command::CycleClient(Direction::Forward))),
        bind("M-k", Action::Run(Command::CycleClient(Direction::Backward))),
        bind("M-S-j", Action::Run(Command::DragClient(Direction::Forward))),
        bind("M-S-k", Action::Run(Command::DragClient(Direction::Backward))),
        bind("M-S-c", Action::Run(Command::KillClient)),
        bind("M-S-f", Action::Run(Command::ToggleClientFullscreen)),
        bind("M-Tab", Action::Run(Command::ToggleWorkspace)),
        bind("M-bracketright", Action::Run(Command::CycleScreen(Direction::Forward))),
        bind("M-bracketleft", Action::Run(Command::CycleScreen(Direction::Backward))),
        bind("M-S-bracketright", Action::Run(Command::DragWorkspace(Direction::Forward))),
        bind("M-S-bracketleft", Action::Run(Command::DragWorkspace(Direction::Backward))),
        bind("M-grave", Action::Run(Command::CycleLayout(Direction::Forward))),
        bind("M-S-grave", Action::Run(Command::CycleLayout(Direction::Backward))),
        bind("M-A-Up", Action::Run(Command::UpdateMaxMain(Change::More))),
        bind("M-A-Down", Action::Run(Command::UpdateMaxMain(Change::Less))),
        bind("M-A-Right", Action::Run(Command::UpdateMainRatio(Change::More))),
        bind("M-A-Left", Action::Run(Command::UpdateMainRatio(Change::Less))),
        bind("M-A-s", Action::Run(Command::DetectScreens)),
        bind("M-S-q", Action::Run(Command::Exit)),
    ];
    let names = workspace_names();
    assert(texts(names@).len() == names@.len());
    let mut ws = workspace_bindings(&names);
    let ghost fixed = r@;
    let ghost per_ws = ws@;
    r.append(&mut ws);
    proof {
        assert(fixed.len() == fixed_bindings().len());
        assert forall|k: int| 0 <= k < fixed_bindings().len() implies (#[trigger] r@[k]).chord@
            == fixed_bindings()[k].0 && r@[k].action@ == fixed_bindings()[k].1 by {
            assert(r@[k] == fixed[k]);
        }
        assert forall|k: int| 0 <= k < default_workspace_names().len() implies {
            &&& (#[trigger] r@[fixed_bindings().len() + 2 * k]).chord@ == "M-"@
                + default_workspace_names()[k]
            &&& r@[fixed_bindings().len() + 2 * k].action@ == ActionView::Run(
                Command::FocusWorkspace(k as usize),
            )
            &&& r@[fixed_bindings().len() + 2 * k + 1].chord@ == "M-S-"@
                + default_workspace_names()[k]
            &&& r@[fixed_bindings().len() + 2 * k + 1].action@ == ActionView::Run(
                Command::ClientToWorkspace(k as usize),
            )
        } by {
            assert(r@[fixed.len() + 2 * k] == per_ws[2 * k]);
            assert(r@[fixed.len() + 2 * k + 1] == per_ws[2 * k + 1]);
            assert(names@[k]@ == texts(names@)[k]);
        }
        let c = chord_texts(r@);
        let t = shipped_chords();
        assert forall|i: int| 0 <= i < c.len() implies #[trigger] c[i] == t[i] by {
            if i < fixed.len() {
                assert(r@[i].chord@ == fixed_bindings()[i].0);
            } else {
                let k = (i - fixed.len()) / 2;
                if (i - fixed.len()) % 2 == 0 {
                    assert(r@[fixed_bindings().len() + 2 * k].chord@ == "M-"@
                        + default_workspace_names()[k]);
                } else {
                    assert(r@[fixed_bindings().len() + 2 * k + 1].chord@ == "M-S-"@
                        + default_workspace_names()[k]);
                }
            }
        }
        assert(c =~= t);
        lemma_shipped_chords_distinct();
    }
    r
}

/// The chords of the table that [`create_bindings`] builds, in order.
pub open spec fn shipped_chords() -> Seq<Seq<char>> {
    fixed_bindings().map_values(|e: (Seq<char>, ActionView)| e.0) + Seq::new(
        2 * default_workspace_names().len(),
        |i: int|
            if i % 2 == 0 {
                "M-"@ + default_workspace_names()[i / 2]
            } else {
                "M-S-"@ + default_workspace_names()[i / 2]
            },
    )
}

/// Enough of a chord to tell the shipped ones apart: its length, its third
/// character and its last one.
spec fn chord_sig(c: Seq<char>) -> (nat, char, char) {
    (c.len(), c[2], c.last())
}

proof fn lemma_shipped_chords_distinct()
    ensures
        all_distinct(shipped_chords()),
{
    reveal_strlit("M-semicolon");
    reveal_strlit("M-Return");
    reveal_strlit("M-f");
    reveal_strlit("M-p");
    reveal_strlit("M-l");
    reveal_strlit("M-j");
    reveal_strlit("M-k");
    reveal_strlit("M-S-j");
    reveal_strlit("M-S-k");
    reveal_strlit("M-S-c");
    reveal_strlit("M-S-f");
    reveal_strlit("M-Tab");
    reveal_strlit("M-bracketright");
    reveal_strlit("M-bracketleft");
    reveal_strlit("M-S-bracketright");
    reveal_strlit("M-S-bracketleft");
    reveal_strlit("M-grave");
    reveal_strlit("M-S-grave");
    reveal_strlit("M-A-Up");
    reveal_strlit("M-A-Down");
    reveal_strlit("M-A-Right");
    reveal_strlit("M-A-Left");
    reveal_strlit("M-A-s");
    reveal_strlit("M-S-q");
    reveal_strlit("M-");
    reveal_strlit("M-S-");
    let s = shipped_chords();
    assert forall|a: int, b: int| 0 <= a < b < s.len() implies s[a] != s[b] by {
        if s[a] == s[b] {
            assert(chord_sig(s[a]) == chord_sig(s[b]));
        }
    }
}

/// Checks that no chord is bound twice; the error names the earliest
/// repeat.
pub fn check_bindings(bindings: &Vec<KeyBinding>) -> (r: Result<(), BindingError>)
    ensures
        r is Ok <==> all_distinct(chord_texts(bindings@)),
        r matches Err(BindingError::DuplicateChord { first, second }) ==> {
            &&& first < second < bindings@.len()
            &&& bindings@[first as int].chord@ == bindings@[second as int].chord@
            &&& distinct_below(chord_texts(bindings@), second as int)
        },
{
    let mut chords: Vec<String> = Vec::new();
    let mut k: usize = 0;
    while k < bindings.len()
        invariant
            k <= bindings@.len(),
            chords@.len() == k,
            texts(chords@) == chord_texts(bindings@).subrange(0, k as int),
        decreases bindings@.len() - k,
    {
        let ghost prev = chords@;
        let c = bindings[k].chord.clone();
        assert(c@ == bindings@[k as int].chord@);
        chords.push(c);
        k = k + 1;
        assert forall|j: int| 0 <= j < k implies #[trigger] texts(chords@)[j] == chord_texts(
            bindings@,
        )[j] by {
            if j < k - 1 {
                assert(chords@[j] == prev[j]);
                assert(texts(prev)[j] == chord_texts(bindings@).subrange(0, k - 1)[j]);
            }
        }
        assert(texts(chords@) =~= chord_texts(bindings@).subrange(0, k as int));
    }
    assert(texts(chords@) =~= chord_texts(bindings@));
    match find_duplicate(&chords) {
        Some((first, second)) => {
            assert(texts(chords@)[first as int] == chord_texts(bindings@)[first as int]);
            assert(texts(chords@)[second as int] == chord_texts(bindings@)[second as int]);
            Err(BindingError::DuplicateChord { first, second })
        },
        None => Ok(()),
    }
}

} // verus!
