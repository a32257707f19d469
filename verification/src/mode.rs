//! The two modes, running and editing, and what moves between them.
//!
//! A mode is replaced whole: each event gives the next mode, and says what
//! becomes of the canvas.

use crate::canvas::{
    blank_cells, can_give, cell_at, cell_index, comes_before, fails_first_at, on_grid, Canvas, Cell,
    CELLS,
};
use crate::editor::{EditOutcome, EditorState, EditorView};
use crate::ieee::{INFINITY, ZERO};
use crate::keys::{KeyCode, KeyPress};
use crate::patterns::{digit, digit_of, pattern, pattern_source};
use crate::script::{
    bindings_of, compile, compiled_text_is_accepted, parse_failure, script_functions,
    shown_message, shown_message_is_not_empty, Bindings, CompileError, CompiledScript, EvalError,
};
use vstd::prelude::*;

verus! {

#[verifier::external_type_specification]
#[verifier::external_body]
pub struct ExInstant(std::time::Instant);

/// `Instant::now` of std: the present moment.
#[verifier::external_body]
fn now() -> (moment: std::time::Instant) {
    std::time::Instant::now()
}

/// `Instant::elapsed` of std: the time that has passed since `start`.
#[verifier::external_body]
fn elapsed(start: &std::time::Instant) -> (span: std::time::Duration) {
    start.elapsed()
}

/// `Duration::as_secs_f64` of std: the span in seconds, as a double's bit
/// pattern. A span is never negative and its seconds fit a double, so the
/// pattern lies below that of infinity.
#[verifier::external_body]
fn seconds(span: std::time::Duration) -> (bits: u64)
    ensures
        bits < INFINITY,
{
    span.as_secs_f64().to_bits()
}

/// A script that compiled, and when it started to run.
pub struct ModeRunning {
    start_time: std::time::Instant,
    script: CompiledScript,
    code: String,
}

/// A script's text, held for editing, with the reason if it was left for
/// an error.
#[derive(Debug)]
pub struct ModeEditing {
    /// The message of the error that ended the running, if one did.
    pub error: Option<String>,
    /// The text of the script.
    pub code: String,
}

/// What the program is doing: exactly one of the two.
pub enum Mode {
    Running(ModeRunning),
    Editing(ModeEditing),
}

/// A mode as contracts speak of it.
pub enum ModeView {
    Running { source: Seq<char> },
    Editing { source: Seq<char>, error: Option<Seq<char>> },
}

/// What an event asks of the main loop.
pub enum Transition {
    /// The mode stays as it is.
    Stay,
    /// The program ends.
    Quit,
    /// The mode is replaced by `mode`. Where `paced` holds, the rest of the
    /// frame's time is waited out before the new mode's first pass; else
    /// that pass follows at once.
    Become { mode: Mode, paced: bool },
}

/// A transition as contracts speak of it.
pub enum TransitionView {
    Stay,
    Quit,
    Become { mode: ModeView, paced: bool },
}

/// The mode that a text is given: running where the text compiles, else
/// editing that same text, with the message to show for the reason.
pub open spec fn constructed(source: Seq<char>) -> ModeView {
    match parse_failure(source) {
        None => ModeView::Running { source },
        Some(message) => ModeView::Editing { source, error: Some(shown_message(message)) },
    }
}

/// Whether `key` is Control with `c` and nothing else held.
pub open spec fn is_interrupt(key: KeyPress) -> bool {
    key.code == KeyCode::Char('c') && key.control && !key.shift && !key.alt
}

/// The pattern that `key` selects while running: that of its digit, if the
/// key is a digit and there is a pattern for it.
pub open spec fn selected_pattern(key: KeyPress) -> Option<Seq<char>> {
    match key.code {
        KeyCode::Char(c) => if is_interrupt(key) {
            None
        } else {
            match digit_of(c) {
                Some(d) => pattern_source(d),
                None => None,
            }
        },
        _ => None,
    }
}

/// What a key while running makes of a canvas that holds `cells`: blank
/// where the key selects a pattern, else as it was.
pub open spec fn running_canvas(cells: Seq<u64>, key: KeyPress) -> Seq<u64> {
    if selected_pattern(key) is Some {
        blank_cells()
    } else {
        cells
    }
}

/// What a key while editing makes of a canvas that holds `cells`: blank
/// where the key is Enter, else as it was.
pub open spec fn editing_canvas(cells: Seq<u64>, key: KeyPress) -> Seq<u64> {
    if EditorView::outcome(key) == EditOutcome::Submit {
        blank_cells()
    } else {
        cells
    }
}

/// What a key asks for while the script with text `source` runs. No mode
/// that follows a key here is paced.
pub open spec fn running_press(source: Seq<char>, key: KeyPress) -> TransitionView {
    if is_interrupt(key) {
        TransitionView::Quit
    } else if key.code == KeyCode::Esc {
        TransitionView::Become { mode: ModeView::Editing { source, error: None }, paced: false }
    } else {
        match selected_pattern(key) {
            Some(text) => TransitionView::Become { mode: constructed(text), paced: false },
            None => TransitionView::Stay,
        }
    }
}

/// What a key asks for while `source` is edited and the editor, before the
/// key, is in `editor`. The mode that follows Enter is paced; the one that
/// follows Escape is not.
pub open spec fn editing_press(
    source: Seq<char>,
    editor: EditorView,
    key: KeyPress,
) -> TransitionView {
    match EditorView::outcome(key) {
        EditOutcome::Quit => TransitionView::Quit,
        EditOutcome::Discard => TransitionView::Become { mode: constructed(source), paced: false },
        EditOutcome::Submit => TransitionView::Become {
            mode: constructed(editor.text),
            paced: true,
        },
        EditOutcome::Continue => TransitionView::Stay,
    }
}

/// A text runs exactly where it compiles. Where it does not, it is edited
/// with an error that is not empty, and the text is kept as it is either
/// way.
pub proof fn construct_runs_what_compiles(source: Seq<char>)
    ensures
        constructed(source) is Running <==> parse_failure(source) is None,
        constructed(source) matches ModeView::Running { source: kept } ==> kept == source,
        constructed(source) matches ModeView::Editing { source: kept, error } ==> kept == source
            && error is Some && error->0.len() > 0,
{
    if parse_failure(source) is Some {
        shown_message_is_not_empty(parse_failure(source)->0);
    }
}

/// The text of a well-formed running mode compiles, so the mode that this
/// text is given is running it again: Escape while running and Escape
/// once more, with nothing or anything typed between, ends in a mode that
/// runs the same text.
pub proof fn running_text_runs_again(running: ModeRunning, editor: EditorView, key: KeyPress)
    requires
        running.wf(),
        key.code == KeyCode::Esc,
    ensures
        constructed(running.source()) == (ModeView::Running { source: running.source() }),
        running_press(running.source(), key) == (TransitionView::Become {
            mode: ModeView::Editing { source: running.source(), error: None },
            paced: false,
        }),
        editing_press(running.source(), editor, key) == (TransitionView::Become {
            mode: ModeView::Running { source: running.source() },
            paced: false,
        }),
{
    compiled_text_is_accepted(running.script(), running.source());
}

/// The keys that select a pattern while running are the digits that have
/// one, whatever modifiers are held, and each selects the pattern at its
/// value.
pub proof fn pattern_keys_are_the_digits(key: KeyPress)
    ensures
        selected_pattern(key) is Some <==> (key.code matches KeyCode::Char(c) && '0' <= c <= '5'),
        key.code matches KeyCode::Char(c) ==> ('0' <= c <= '5' ==> selected_pattern(key)
            == pattern_source(c as int - '0' as int)),
{
}

/// While running, a key that selects a pattern leaves positive zero in
/// every cell and any other key leaves the canvas as it was. While editing,
/// Enter leaves positive zero in every cell and any other key leaves the
/// canvas as it was.
pub proof fn what_blanks_the_canvas(cells: Seq<u64>, key: KeyPress, i: int)
    requires
        0 <= i < CELLS,
    ensures
        selected_pattern(key) is Some ==> running_canvas(cells, key).len() == CELLS
            && running_canvas(cells, key)[i] == ZERO,
        selected_pattern(key) is None ==> running_canvas(cells, key) == cells,
        key.code == KeyCode::Enter ==> editing_canvas(cells, key).len() == CELLS && editing_canvas(
            cells,
            key,
        )[i] == ZERO,
        key.code != KeyCode::Enter ==> editing_canvas(cells, key) == cells,
{
}

/// Escape leaves the canvas as it was in either mode, and the mode that
/// follows it keeps the text: while running it edits the text that ran,
/// with no error, and while editing it is the mode that this text is
/// given, whatever was typed.
pub proof fn escape_keeps_canvas_and_text(
    source: Seq<char>,
    cells: Seq<u64>,
    editor: EditorView,
    key: KeyPress,
)
    requires
        key.code == KeyCode::Esc,
    ensures
        running_canvas(cells, key) == cells,
        editing_canvas(cells, key) == cells,
        running_press(source, key) == (TransitionView::Become {
            mode: ModeView::Editing { source, error: None },
            paced: false,
        }),
        editing_press(source, editor, key) == (TransitionView::Become {
            mode: constructed(source),
            paced: false,
        }),
{
}

impl View for ModeEditing {
    type V = ModeView;

    open spec fn view(&self) -> ModeView {
        ModeView::Editing {
            source: self.code@,
            error: match self.error {
                Some(message) => Some(message@),
                None => None,
            },
        }
    }
}

impl View for Mode {
    type V = ModeView;

    open spec fn view(&self) -> ModeView {
        match self {
            Mode::Running(running) => ModeView::Running { source: running.source() },
            Mode::Editing(editing) => editing@,
        }
    }
}

impl Transition {
    /// A mode that a transition brings is well formed.
    pub open spec fn wf(&self) -> bool {
        self matches Transition::Become { mode, .. } ==> mode.wf()
    }
}

impl View for Transition {
    type V = TransitionView;

    open spec fn view(&self) -> TransitionView {
        match self {
            Transition::Stay => TransitionView::Stay,
            Transition::Quit => TransitionView::Quit,
            Transition::Become { mode, paced } => TransitionView::Become {
                mode: mode@,
                paced: *paced,
            },
        }
    }
}

impl Mode {
    /// A running mode is well formed; an editing mode always is.
    pub open spec fn wf(&self) -> bool {
        self matches Mode::Running(running) ==> running.wf()
    }

    /// The mode for the script `code`: running what the engine made of
    /// that text where it compiles, from now on; else editing with the
    /// compile error. The text is kept as it is either way.
    pub fn new(code: &str) -> (mode: Mode)
        ensures
            mode@ == constructed(code@),
            mode.wf(),
    {
        Mode::from_compiled(code, compile(code))
    }

    /// The mode for the script `code`, given what compiling that text
    /// gave: running the script given, from now on, or editing with the
    /// error given.
    pub fn from_compiled(code: &str, compiled: Result<CompiledScript, CompileError>) -> (mode: Mode)
        requires
            compiled matches Ok(script) ==> script.compiled_from(code@) && script.functions()
                == script_functions(),
        ensures
            mode@ == match compiled {
                Ok(_) => ModeView::Running { source: code@ },
                Err(error) => ModeView::Editing { source: code@, error: Some(error.message@) },
            },
            mode matches Mode::Running(running) ==> compiled matches Ok(script) && running.script()
                == script,
            mode.wf(),
    {
        match compiled {
            Ok(script) => {
                let start_time = now();
                assert(call_ensures(now, (), start_time));
                Mode::Running(ModeRunning { start_time, script, code: String::from_str(code) })
            },
            Err(error) => Mode::Editing(
                ModeEditing { error: Some(error.message), code: String::from_str(code) },
            ),
        }
    }

    /// Whether the mode is the running one.
    pub fn is_running(&self) -> (running: bool)
        ensures
            running == (self@ is Running),
    {
        match self {
            Mode::Running(_) => true,
            Mode::Editing(_) => false,
        }
    }

    /// The text of the script that runs or is edited.
    pub fn code(&self) -> (code: &str)
        ensures
            code@ == match self@ {
                ModeView::Running { source } => source,
                ModeView::Editing { source, .. } => source,
            },
    {
        match self {
            Mode::Running(running) => running.code(),
            Mode::Editing(editing) => editing.code.as_str(),
        }
    }
}

impl ModeRunning {
    /// The text of the script that runs.
    pub closed spec fn source(&self) -> Seq<char> {
        self.code@
    }

    /// The script that runs.
    pub closed spec fn script(&self) -> CompiledScript {
        self.script
    }

    /// Whether the start time that the mode holds is a moment that the
    /// clock gave. Only a reading of the clock makes this hold.
    pub closed spec fn started(&self) -> bool {
        call_ensures(now, (), self.start_time)
    }

    /// A running mode holds what the engine made of its own text, with the
    /// helper functions to call, and a start time that the clock gave.
    pub open spec fn wf(&self) -> bool {
        &&& self.script().compiled_from(self.source())
        &&& self.script().functions() == script_functions()
        &&& self.started()
    }

    /// Whether the engine gave `outcome` when it was asked to evaluate the
    /// script that runs for `bindings`: `CompiledScript::gave`.
    pub open spec fn gave(&self, bindings: Bindings, outcome: Result<u64, EvalError>) -> bool {
        self.script().gave(bindings, outcome)
    }

    /// Whether the clock, asked for the time since the script started to
    /// run, gave a span of `bits` seconds, as a double's bit pattern. Only
    /// a reading of the clock makes this hold.
    pub closed spec fn clocked(&self, bits: u64) -> bool {
        exists|span: std::time::Duration|
            #![trigger call_ensures(seconds, (span,), bits)]
            call_ensures(elapsed, (&self.start_time,), span) && call_ensures(
                seconds,
                (span,),
                bits,
            )
    }

    /// Whether `eval` can give `outcome` for `cell` while the volume is at
    /// `volume`: it can give it for what a script sees of the cell at some
    /// time that the clock gave.
    pub open spec fn evaluated<F: Fn(&Bindings) -> Result<u64, EvalError>>(
        &self,
        eval: &F,
        cell: Cell,
        volume: u64,
        outcome: Result<u64, EvalError>,
    ) -> bool {
        exists|t: u64|
            t < INFINITY && self.clocked(t) && eval.ensures(
                (&#[trigger] bindings_of(cell, volume, t),),
                outcome,
            )
    }

    /// Whether `eval` can give `value` for `cell` while the volume is at
    /// `volume`.
    pub open spec fn gives<F: Fn(&Bindings) -> Result<u64, EvalError>>(
        &self,
        eval: &F,
        cell: Cell,
        volume: u64,
        value: u64,
    ) -> bool {
        self.evaluated(eval, cell, volume, Ok(value))
    }

    /// Whether a frame over a canvas that holds `cells` can stop at the
    /// cell in column `x` and row `y` with `error`: `eval` can give that
    /// error there, and a value for each cell before.
    pub open spec fn stops_frame<F: Fn(&Bindings) -> Result<u64, EvalError>>(
        &self,
        eval: &F,
        cells: Seq<u64>,
        volume: u64,
        x: int,
        y: int,
        error: EvalError,
    ) -> bool {
        &&& on_grid(x, y)
        &&& self.evaluated(eval, cell_at(cells, x, y), volume, Err(error))
        &&& forall|p: int, q: int|
            on_grid(p, q) && #[trigger] comes_before(p, q, x, y) ==> exists|value: u64| #[trigger]
                self.gives(eval, cell_at(cells, p, q), volume, value)
    }

    /// Whether the engine gave `outcome` for `cell` while the volume was
    /// at `volume`: it gave it for what the script sees of the cell at
    /// some time that the clock gave.
    pub open spec fn computed(
        &self,
        cell: Cell,
        volume: u64,
        outcome: Result<u64, EvalError>,
    ) -> bool {
        exists|t: u64|
            t < INFINITY && self.clocked(t) && self.gave(
                #[trigger] bindings_of(cell, volume, t),
                outcome,
            )
    }

    /// Whether the engine gave the double `value` for `cell` while the
    /// volume was at `volume`.
    pub open spec fn computed_value(&self, cell: Cell, volume: u64, value: u64) -> bool {
        self.computed(cell, volume, Ok(value))
    }

    /// Whether a frame over a canvas that held `cells` stopped at the cell
    /// in column `x` and row `y` with `error`: the engine gave that error
    /// there, and a double for each cell before.
    pub open spec fn stopped_at(
        &self,
        cells: Seq<u64>,
        volume: u64,
        x: int,
        y: int,
        error: EvalError,
    ) -> bool {
        &&& on_grid(x, y)
        &&& self.computed(cell_at(cells, x, y), volume, Err(error))
        &&& forall|p: int, q: int|
            on_grid(p, q) && #[trigger] comes_before(p, q, x, y) ==> exists|value: u64| #[trigger]
                self.computed_value(cell_at(cells, p, q), volume, value)
    }

    /// The text of the script that runs.
    pub fn code(&self) -> (code: &str)
        ensures
            code@ == self.source(),
    {
        self.code.as_str()
    }

    /// Seconds since the script started to run, as a double's bit pattern:
    /// what the clock gives for the start time that this mode holds. It is
    /// a number, and not negative.
    pub fn elapsed_seconds(&self) -> (bits: u64)
        ensures
            bits < INFINITY,
            self.clocked(bits),
    {
        let span = elapsed(&self.start_time);
        let bits = seconds(span);
        assert(call_ensures(elapsed, (&self.start_time,), span) && call_ensures(
            seconds,
            (span,),
            bits,
        ));
        bits
    }

    /// What the script sees of `cell`: the cell's index, column, row and
    /// value as they are, the volume, and the time read now.
    pub fn bindings(&self, cell: Cell, volume: u64) -> (bindings: Bindings)
        ensures
            bindings == bindings_of(cell, volume, bindings.t),
            bindings.t < INFINITY,
            self.clocked(bindings.t),
    {
        Bindings {
            t: self.elapsed_seconds(),
            i: cell.i,
            x: cell.x,
            y: cell.y,
            v: volume,
            a: cell.a,
        }
    }

    /// The mode after an evaluation has failed: editing the same text, with
    /// the failure's message.
    pub fn failed(&self, error: EvalError) -> (editing: ModeEditing)
        ensures
            editing@ == (ModeView::Editing { source: self.source(), error: Some(error.message@) }),
    {
        ModeEditing { error: Some(error.message), code: self.code.clone() }
    }

    /// The mode after Escape: editing the same text, with no error.
    pub fn edit(&self) -> (editing: ModeEditing)
        ensures
            editing@ == (ModeView::Editing { source: self.source(), error: None }),
    {
        ModeEditing { error: None, code: self.code.clone() }
    }

    /// One frame, with `eval` as what evaluates the script. Every cell is
    /// computed from what a script sees of it on `canvas` as it was, at
    /// the time read for that cell, and then the new values are put on
    /// `canvas`. If `eval` fails for a cell the frame ends there: `canvas`
    /// is left exactly as it was, and the editing mode that takes over
    /// comes back, with the same text and the failure's message.
    pub fn frame_with<F: Fn(&Bindings) -> Result<u64, EvalError>>(
        &self,
        canvas: &mut Canvas,
        volume: u64,
        eval: F,
    ) -> (failure: Option<ModeEditing>)
        requires
            old(canvas).wf(),
            forall|bindings: Bindings| #[trigger] eval.requires((&bindings,)),
        ensures
            final(canvas).wf(),
            failure is None ==> forall|x: int, y: int|
                on_grid(x, y) ==> self.evaluated(
                    &eval,
                    cell_at(old(canvas)@, x, y),
                    volume,
                    Ok(final(canvas)@[#[trigger] cell_index(x, y)]),
                ),
            failure is Some ==> final(canvas)@ == old(canvas)@,
            failure matches Some(editing) ==> exists|x: int, y: int, error: EvalError|
                #![trigger self.stops_frame(&eval, old(canvas)@, volume, x, y, error)]
                self.stops_frame(&eval, old(canvas)@, volume, x, y, error) && editing@ == (
                ModeView::Editing { source: self.source(), error: Some(error.message@) }),
    {
        let ghost before = canvas@;
        let compute = |cell: Cell| -> (value: Result<u64, EvalError>)
            ensures
                self.evaluated(&eval, cell, volume, value),
            {
                let bindings = self.bindings(cell, volume);
                eval(&bindings)
            };
        let ghost computes = compute;
        match canvas.advance(compute) {
            Some(error) => {
                proof {
                    let (x, y) = choose|x: int, y: int| #[trigger]
                        on_grid(x, y) && fails_first_at(before, computes, error, x, y);
                    assert forall|p: int, q: int|
                        on_grid(p, q) && #[trigger] comes_before(p, q, x, y) implies exists|
                        value: u64,
                    | #[trigger] self.gives(&eval, cell_at(before, p, q), volume, value) by {
                        let value = choose|value: u64| #[trigger]
                            can_give(computes, cell_at(before, p, q), value);
                        assert(self.gives(&eval, cell_at(before, p, q), volume, value));
                    }
                    assert(self.stops_frame(&eval, before, volume, x, y, error));
                }
                Some(self.failed(error))
            },
            None => None,
        }
    }

    /// One frame: `frame_with`, the script that runs being what is
    /// evaluated. Every cell's new value is a double that the engine gave
    /// for the script and what it sees of that cell on `canvas` as it was;
    /// the new values are put on `canvas` together. If the engine refuses
    /// a cell the frame ends there: `canvas` is left exactly as it was, and
    /// the editing mode that takes over comes back, with the same text and
    /// the engine's message.
    pub fn frame(&self, canvas: &mut Canvas, volume: u64) -> (failure: Option<ModeEditing>)
        requires
            old(canvas).wf(),
        ensures
            final(canvas).wf(),
            failure is None ==> forall|x: int, y: int|
                on_grid(x, y) ==> self.computed(
                    cell_at(old(canvas)@, x, y),
                    volume,
                    Ok(final(canvas)@[#[trigger] cell_index(x, y)]),
                ),
            failure is Some ==> final(canvas)@ == old(canvas)@,
            failure matches Some(editing) ==> exists|x: int, y: int, error: EvalError|
                #![trigger self.stopped_at(old(canvas)@, volume, x, y, error)]
                self.stopped_at(old(canvas)@, volume, x, y, error) && editing@ == (
                ModeView::Editing { source: self.source(), error: Some(error.message@) }),
    {
        let ghost before = canvas@;
        let eval = |bindings: &Bindings| -> (value: Result<u64, EvalError>)
            ensures
                self.gave(*bindings, value),
            { self.script.evaluate(bindings) };
        let ghost evals = eval;
        let failure = self.frame_with(canvas, volume, eval);
        proof {
            assert forall|cell: Cell, outcome: Result<u64, EvalError>|
                self.evaluated(&evals, cell, volume, outcome) implies self.computed(
                cell,
                volume,
                outcome,
            ) by {
                let t = choose|t: u64|
                    t < INFINITY && self.clocked(t) && evals.ensures(
                        (&#[trigger] bindings_of(cell, volume, t),),
                        outcome,
                    );
                assert(self.gave(bindings_of(cell, volume, t), outcome));
            }
            if failure is Some {
                let editing = failure->0;
                let (x, y, error) = choose|x: int, y: int, error: EvalError|
                    #![trigger self.stops_frame(&evals, before, volume, x, y, error)]
                    self.stops_frame(&evals, before, volume, x, y, error) && editing@ == (
                    ModeView::Editing { source: self.source(), error: Some(error.message@) });
                assert forall|p: int, q: int|
                    on_grid(p, q) && #[trigger] comes_before(p, q, x, y) implies exists|
                    value: u64,
                | #[trigger] self.computed_value(cell_at(before, p, q), volume, value) by {
                    let value = choose|value: u64| #[trigger]
                        self.gives(&evals, cell_at(before, p, q), volume, value);
                    assert(self.computed_value(cell_at(before, p, q), volume, value));
                }
                assert(self.stopped_at(before, volume, x, y, error));
            }
        }
        failure
    }

    /// Takes one key while running. Control with `c` alone ends the
    /// program. Escape starts editing the running text; the canvas stays. A
    /// digit with a pattern to it starts that pattern on a blank canvas.
    /// Any other key changes nothing.
    pub fn press(&self, key: &KeyPress, canvas: &mut Canvas) -> (transition: Transition)
        requires
            old(canvas).wf(),
        ensures
            transition@ == running_press(self.source(), *key),
            transition.wf(),
            final(canvas).wf(),
            final(canvas)@ == running_canvas(old(canvas)@, *key),
    {
        match key.code {
            KeyCode::Char(c) => {
                if c == 'c' && key.control && !key.shift && !key.alt {
                    return Transition::Quit;
                }
                match digit(c) {
                    Some(d) => match pattern(d) {
                        Some(text) => {
                            let mode = Mode::new(text);
                            *canvas = Canvas::new();
                            Transition::Become { mode, paced: false }
                        },
                        None => Transition::Stay,
                    },
                    None => Transition::Stay,
                }
            },
            KeyCode::Esc => Transition::Become { mode: Mode::Editing(self.edit()), paced: false },
            _ => Transition::Stay,
        }
    }
}

impl ModeEditing {
    /// The editor in which the editing starts: the text, with the cursor
    /// at its end.
    pub fn editor(&self) -> (editor: EditorState)
        ensures
            editor@ == EditorView::start(self.code@),
            editor@.wf(),
    {
        EditorState::new(self.code.as_str())
    }

    /// Takes one key while editing. Control with `c` ends the program.
    /// Escape gives the edit up and runs the text as it was; the canvas
    /// stays. Enter runs the text in the editor on a blank canvas. Any
    /// other key goes to the editor.
    pub fn press(&self, editor: &mut EditorState, key: &KeyPress, canvas: &mut Canvas) -> (transition:
        Transition)
        requires
            old(editor)@.wf(),
            old(canvas).wf(),
        ensures
            transition@ == editing_press(self.code@, old(editor)@, *key),
            transition.wf(),
            final(editor)@ == old(editor)@.press(*key),
            final(editor)@.wf(),
            final(canvas).wf(),
            final(canvas)@ == editing_canvas(old(canvas)@, *key),
    {
        match editor.press(key) {
            EditOutcome::Quit => Transition::Quit,
            EditOutcome::Discard => Transition::Become {
                mode: Mode::new(self.code.as_str()),
                paced: false,
            },
            EditOutcome::Submit => {
                let text = editor.text();
                let mode = Mode::new(text.as_str());
                *canvas = Canvas::new();
                Transition::Become { mode, paced: true }
            },
            EditOutcome::Continue => Transition::Stay,
        }
    }
}

} // verus!
