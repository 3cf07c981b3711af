//! One session: its settings, its size, the commands it takes and what each
//! command asks of the process and of the engine.

use crate::engine::{
    application_scroll, blank_cell, empty_grid, empty_mode, mode_is_application_scroll,
};
use crate::size::{Size, TerminalSize, WindowDimensions};
use alacritty_terminal::selection::SelectionRange;
use alacritty_terminal::term::cell::Cell;
use alacritty_terminal::term::TermMode;
use alacritty_terminal::Grid;
use std::path::PathBuf;
use vstd::prelude::*;
use vstd::string::StringExecFns;

verus! {

/// `std::path::PathBuf`, carried through to the process layer.
#[verifier::external_type_specification]
#[verifier::external_body]
pub struct ExPathBuf(PathBuf);

/// With what a session's process is started.
///
/// `env` lists the variables laid over the inherited environment, each name
/// with its value, in the order in which they are set. No name is to occur
/// twice in it.
#[derive(Debug, Clone)]
pub struct BackendSettings {
    pub shell: String,
    pub args: Vec<String>,
    pub working_directory: Option<PathBuf>,
    pub env: Vec<(String, String)>,
}

impl BackendSettings {
    /// The overlay sets `LANG`, `LC_ALL` and `LC_CTYPE`, in that order and
    /// nothing else, to the UTF-8 locale.
    pub open spec fn forces_utf8_locale(self) -> bool {
        &&& self.env@.len() == 3
        &&& self.env@[0].0@ == "LANG"@
        &&& self.env@[1].0@ == "LC_ALL"@
        &&& self.env@[2].0@ == "LC_CTYPE"@
        &&& forall|i: int| 0 <= i < 3 ==> (#[trigger] self.env@[i]).1@ == "en_US.UTF-8"@
    }

    /// No variable is named twice in the overlay.
    pub open spec fn names_distinct(self) -> bool {
        forall|i: int, j: int|
            0 <= i < j < self.env@.len() ==> (#[trigger] self.env@[i]).0@ != (
            #[trigger] self.env@[j]).0@
    }

    /// The settings for a login shell: the given shell, or `/bin/zsh` where
    /// none is given, without arguments, in the inherited directory, with
    /// the locale forced to UTF-8.
    pub fn for_shell(shell: Option<String>) -> (settings: Self)
        ensures
            settings.shell@ == (match shell {
                Some(path) => path@,
                None => "/bin/zsh"@,
            }),
            settings.args@.len() == 0,
            settings.working_directory is None,
            settings.forces_utf8_locale(),
            settings.names_distinct(),
    {
        let mut env: Vec<(String, String)> = Vec::new();
        env.push((String::from_str("LANG"), String::from_str("en_US.UTF-8")));
        env.push((String::from_str("LC_ALL"), String::from_str("en_US.UTF-8")));
        env.push((String::from_str("LC_CTYPE"), String::from_str("en_US.UTF-8")));
        let shell = match shell {
            Some(path) => path,
            None => String::from_str("/bin/zsh"),
        };
        proof {
            reveal_strlit("LANG");
            reveal_strlit("LC_ALL");
            reveal_strlit("LC_CTYPE");
            assert("LANG"@.len() == 4 && "LC_ALL"@.len() == 6 && "LC_CTYPE"@.len() == 8);
        }
        BackendSettings { shell, args: Vec::new(), working_directory: None, env }
    }
}

/// Why a session could not be started.
#[derive(Debug, Clone, Copy, PartialEq, Eq, Structural)]
pub enum SpawnError {
    /// The process could not be created.
    Process,
    /// The thread that relays the engine's events could not be created.
    Relay,
    /// Every id that the registry can give has been given.
    IdsExhausted,
}

/// Why the engine's state could not be read.
#[derive(Debug, Clone, Copy, PartialEq, Eq, Structural)]
pub enum EngineSyncError {
    /// The engine's lock could not be taken.
    Lock,
    /// What was read does not fit together.
    Inconsistent,
}

/// An operation on a session.
#[derive(Debug, Clone, PartialEq, Eq)]
pub enum BackendCommand {
    /// Send these bytes to the process.
    Write(Vec<u8>),
    /// Scroll by this many lines: towards older content for a negative
    /// number, towards newer content for a positive one.
    Scroll(i32),
    /// Fit the grid to a pixel rectangle, given the pixel size of one cell.
    Resize(Size, Size),
}

/// The mathematical value of a `BackendCommand`.
pub enum CommandView {
    Write(Seq<u8>),
    Scroll(i32),
    Resize(Size, Size),
}

impl View for BackendCommand {
    type V = CommandView;

    open spec fn view(&self) -> CommandView {
        match *self {
            BackendCommand::Write(bytes) => CommandView::Write(bytes@),
            BackendCommand::Scroll(delta) => CommandView::Scroll(delta),
            BackendCommand::Resize(layout_size, font_size) => CommandView::Resize(
                layout_size,
                font_size,
            ),
        }
    }
}

/// What a command asks of the process and of the engine.
#[derive(Debug, Clone, PartialEq, Eq)]
pub enum BackendEffect {
    /// Queue `bytes` on the process's input; where `scroll_to_bottom`, also
    /// move the engine's viewport to the latest output.
    Write { bytes: Vec<u8>, scroll_to_bottom: bool },
    /// Move the engine's viewport by this many lines: towards older output
    /// for a negative number, towards newer output for a positive one.
    ScrollDisplay(i32),
    /// Tell the process and the engine the new window.
    Resize(WindowDimensions),
    /// Nothing to do.
    Nothing,
}

/// The mathematical value of a `BackendEffect`.
pub enum EffectView {
    Write { bytes: Seq<u8>, scroll_to_bottom: bool },
    ScrollDisplay(i32),
    Resize(WindowDimensions),
    Nothing,
}

impl View for BackendEffect {
    type V = EffectView;

    open spec fn view(&self) -> EffectView {
        match *self {
            BackendEffect::Write { bytes, scroll_to_bottom } => EffectView::Write {
                bytes: bytes@,
                scroll_to_bottom,
            },
            BackendEffect::ScrollDisplay(delta) => EffectView::ScrollDisplay(delta),
            BackendEffect::Resize(window) => EffectView::Resize(window),
            BackendEffect::Nothing => EffectView::Nothing,
        }
    }
}

/// The key byte of a cursor sequence that scrolls by `delta`. A negative
/// delta goes towards older content, which for the application is cursor
/// up, `A`; a positive one is cursor down, `B`.
pub open spec fn scroll_key(delta: int) -> u8 {
    if delta < 0 {
        0x41
    } else {
        0x42
    }
}

/// `count` times the three bytes `ESC O key`.
pub open spec fn escape_triples(key: u8, count: nat) -> Seq<u8>
    decreases count,
{
    if count == 0 {
        Seq::<u8>::empty()
    } else {
        escape_triples(key, (count - 1) as nat) + seq![0x1bu8, 0x4fu8, key]
    }
}

/// The bytes that ask a full-screen application to scroll by `delta`
/// lines: one cursor sequence for each line, upwards for a negative delta
/// and downwards for a positive one.
pub open spec fn scroll_escapes(delta: int) -> Seq<u8> {
    escape_triples(scroll_key(delta), (if delta >= 0 { delta } else { -delta }) as nat)
}

/// `escape_triples(key, count)` is `count` triples long, and each triple is
/// `ESC O key`.
pub proof fn lemma_escape_triples(key: u8, count: nat)
    ensures
        escape_triples(key, count).len() == 3 * count,
        forall|j: int|
            0 <= j < 3 * count ==> #[trigger] escape_triples(key, count)[j] == (if j % 3 == 0 {
                0x1bu8
            } else if j % 3 == 1 {
                0x4fu8
            } else {
                key
            }),
    decreases count,
{
    if count > 0 {
        lemma_escape_triples(key, (count - 1) as nat);
        let shorter = escape_triples(key, (count - 1) as nat);
        let last = seq![0x1bu8, 0x4fu8, key];
        let whole = escape_triples(key, count);
        assert(whole == shorter + last);
        assert forall|j: int| 0 <= j < 3 * count implies #[trigger] whole[j] == (if j % 3 == 0 {
            0x1bu8
        } else if j % 3 == 1 {
            0x4fu8
        } else {
            key
        }) by {
            if j < 3 * (count - 1) {
                assert(whole[j] == shorter[j]);
            } else {
                assert(whole[j] == last[j - 3 * (count - 1)]);
            }
        }
    }
}

/// What a command asks for, given the session's size and whether the
/// running application scrolls for itself.
pub open spec fn effect_of(
    size: TerminalSize,
    app_scroll: bool,
    command: CommandView,
) -> EffectView {
    match command {
        CommandView::Write(bytes) => EffectView::Write { bytes, scroll_to_bottom: true },
        CommandView::Scroll(delta) => if app_scroll {
            EffectView::Write { bytes: scroll_escapes(delta as int), scroll_to_bottom: false }
        } else {
            EffectView::ScrollDisplay(delta)
        },
        CommandView::Resize(layout_size, font_size) => match size.resize_notice(
            layout_size,
            font_size,
        ) {
            Some(window) => EffectView::Resize(window),
            None => EffectView::Nothing,
        },
    }
}

/// The session's size after a command: only a resize can change it.
pub open spec fn size_after(size: TerminalSize, command: CommandView) -> TerminalSize {
    match command {
        CommandView::Resize(layout_size, font_size) => size.resized(layout_size, font_size),
        _ => size,
    }
}

/// A valid size stays valid through every command.
pub proof fn lemma_size_after_valid(size: TerminalSize, command: CommandView)
    requires
        size.well_formed(),
    ensures
        size_after(size, command).well_formed(),
{
    if let CommandView::Resize(layout_size, font_size) = command {
        size.lemma_resize_keeps_valid_size(layout_size, font_size);
    }
}

/// Scrolling goes to the application or to the viewport, never to both: in
/// application scroll mode the effect is exactly one cursor sequence for each
/// line of `delta` and no move of the viewport; otherwise it is one move of
/// the viewport by `delta` and no byte for the process.
pub proof fn lemma_scroll_effect(size: TerminalSize, app_scroll: bool, delta: i32)
    ensures
        app_scroll ==> {
            &&& effect_of(size, app_scroll, CommandView::Scroll(delta)) matches EffectView::Write {
                bytes,
                scroll_to_bottom,
            }
            &&& !scroll_to_bottom
            &&& bytes == scroll_escapes(delta as int)
            &&& bytes.len() == 3 * (if delta >= 0 { delta as int } else { -(delta as int) })
        },
        !app_scroll ==> effect_of(size, app_scroll, CommandView::Scroll(delta))
            == EffectView::ScrollDisplay(delta),
{
    lemma_escape_triples(
        scroll_key(delta as int),
        (if delta >= 0 { delta as int } else { -(delta as int) }) as nat,
    );
}

/// The bytes of `scroll_escapes(delta)`.
pub fn scroll_sequence(delta: i32) -> (bytes: Vec<u8>)
    ensures
        bytes@ == scroll_escapes(delta as int),
{
    let key: u8 = if delta < 0 { 0x41 } else { 0x42 };
    let count: u32 = if delta >= 0 { delta as u32 } else { (-(delta as i64)) as u32 };
    let mut bytes: Vec<u8> = Vec::new();
    let mut done: u32 = 0;
    while done < count
        invariant
            done <= count,
            key == scroll_key(delta as int),
            bytes@ == escape_triples(key, done as nat),
        decreases count - done,
    {
        bytes.push(0x1b);
        bytes.push(0x4f);
        bytes.push(key);
        done = done + 1;
        assert(bytes@ =~= escape_triples(key, (done - 1) as nat) + seq![0x1bu8, 0x4fu8, key]);
    }
    bytes
}

/// A copy of what a session showed when it was last read.
pub struct RenderableContent {
    pub grid: Grid<Cell>,
    pub selectable_range: Option<SelectionRange>,
    pub cursor: Cell,
    pub terminal_mode: TermMode,
    pub terminal_size: TerminalSize,
    pub cursor_line: usize,
    pub cursor_col: usize,
}

impl Default for RenderableContent {
    /// An empty grid, no selection, the cursor at the origin.
    fn default() -> (content: Self)
        ensures
            crate::engine::grid_chars(content.grid) == Seq::<Seq<char>>::empty(),
            content.selectable_range is None,
            !application_scroll(content.terminal_mode),
            content.terminal_size == TerminalSize::initial(),
            content.cursor_line == 0,
            content.cursor_col == 0,
    {
        RenderableContent {
            grid: empty_grid(),
            selectable_range: None,
            cursor: blank_cell(),
            terminal_mode: empty_mode(),
            terminal_size: TerminalSize::default(),
            cursor_line: 0,
            cursor_col: 0,
        }
    }
}

/// One session as the registry keeps it: its ids, its size, and the last
/// copy of its content.
pub struct TerminalBackend {
    id: u64,
    pty_id: u32,
    size: TerminalSize,
    last_content: RenderableContent,
}

impl TerminalBackend {
    /// The session's id in the registry.
    pub closed spec fn spec_id(&self) -> u64 {
        self.id
    }

    /// The id of the session's process.
    pub closed spec fn spec_pty_id(&self) -> u32 {
        self.pty_id
    }

    /// The session's current size.
    pub closed spec fn spec_size(&self) -> TerminalSize {
        self.size
    }

    /// The content last cached.
    pub closed spec fn spec_last_content(&self) -> &RenderableContent {
        &self.last_content
    }

    /// A session for a process that has just been started: the size with
    /// which a session starts, and as its first content what the engine
    /// shows at the start.
    pub fn new(
        id: u64,
        pty_id: u32,
        grid: Grid<Cell>,
        cursor: Cell,
        terminal_mode: TermMode,
    ) -> (backend: Self)
        ensures
            backend.id() == id,
            backend.pty_id() == pty_id,
            backend.size() == TerminalSize::initial(),
            *backend.last_content() == (RenderableContent {
                grid,
                selectable_range: None,
                cursor,
                terminal_mode,
                terminal_size: backend.size(),
                cursor_line: 0,
                cursor_col: 0,
            }),
    {
        let size = TerminalSize::default();
        TerminalBackend {
            id,
            pty_id,
            size,
            last_content: RenderableContent {
                grid,
                selectable_range: None,
                cursor,
                terminal_mode,
                terminal_size: size,
                cursor_line: 0,
                cursor_col: 0,
            },
        }
    }

    /// Applies a command, given whether the running application scrolls
    /// for itself, and returns what to ask of the process and the engine.
    pub fn apply_command(&mut self, app_scroll: bool, command: BackendCommand) -> (effect:
        BackendEffect)
        ensures
            effect@ == effect_of(old(self).size(), app_scroll, command@),
            final(self).size() == size_after(old(self).size(), command@),
            final(self).id() == old(self).id(),
            final(self).pty_id() == old(self).pty_id(),
            *final(self).last_content() == *old(self).last_content(),
    {
        match command {
            BackendCommand::Write(input) => BackendEffect::Write {
                bytes: input,
                scroll_to_bottom: true,
            },
            BackendCommand::Scroll(delta) => {
                if app_scroll {
                    BackendEffect::Write { bytes: scroll_sequence(delta), scroll_to_bottom: false }
                } else {
                    BackendEffect::ScrollDisplay(delta)
                }
            },
            BackendCommand::Resize(layout_size, font_size) => {
                match self.resize(layout_size, font_size) {
                    Some(window) => BackendEffect::Resize(window),
                    None => BackendEffect::Nothing,
                }
            },
        }
    }

    /// Fits the session's grid to a pixel rectangle, given the pixel size
    /// of one cell, and returns the window to tell the process and the
    /// engine, if it has changed.
    pub fn resize(&mut self, layout_size: Size, font_size: Size) -> (notice: Option<
        WindowDimensions,
    >)
        ensures
            notice == old(self).size().resize_notice(layout_size, font_size),
            final(self).size() == old(self).size().resized(layout_size, font_size),
            final(self).id() == old(self).id(),
            final(self).pty_id() == old(self).pty_id(),
            *final(self).last_content() == *old(self).last_content(),
    {
        self.size.resize(layout_size, font_size)
    }

    /// Applies a command under the engine's current mode and returns what
    /// to ask of the process and the engine.
    pub fn process_command(&mut self, mode: &TermMode, command: BackendCommand) -> (effect:
        BackendEffect)
        ensures
            effect@ == effect_of(old(self).size(), application_scroll(*mode), command@),
            final(self).size() == size_after(old(self).size(), command@),
            final(self).id() == old(self).id(),
            final(self).pty_id() == old(self).pty_id(),
            *final(self).last_content() == *old(self).last_content(),
    {
        let app_scroll = mode_is_application_scroll(mode);
        self.apply_command(app_scroll, command)
    }

    /// Caches what was read from the engine, stamped with the session's
    /// size. Where the engine could not be read, the last copy stays.
    pub fn sync(&mut self, fresh: Result<RenderableContent, EngineSyncError>)
        ensures
            *final(self).last_content() == (match fresh {
                Ok(content) => RenderableContent { terminal_size: old(self).size(), ..content },
                Err(_) => *old(self).last_content(),
            }),
            final(self).size() == old(self).size(),
            final(self).id() == old(self).id(),
            final(self).pty_id() == old(self).pty_id(),
    {
        match fresh {
            Ok(content) => {
                self.last_content = RenderableContent { terminal_size: self.size, ..content };
            },
            Err(_) => {},
        }
    }

    /// The content last cached.
    #[verifier::when_used_as_spec(spec_last_content)]
    pub fn last_content(&self) -> (content: &RenderableContent)
        ensures
            content == self.spec_last_content(),
    {
        &self.last_content
    }

    /// The session's id in the registry.
    #[verifier::when_used_as_spec(spec_id)]
    pub fn id(&self) -> (id: u64)
        ensures
            id == self.spec_id(),
    {
        self.id
    }

    /// The id of the session's process.
    #[verifier::when_used_as_spec(spec_pty_id)]
    pub fn pty_id(&self) -> (pty_id: u32)
        ensures
            pty_id == self.spec_pty_id(),
    {
        self.pty_id
    }

    /// The session's current size.
    #[verifier::when_used_as_spec(spec_size)]
    pub fn size(&self) -> (size: TerminalSize)
        ensures
            size == self.spec_size(),
    {
        self.size
    }
}

} // verus!
