//! Showing a snapshot on the panel.
//!
//! A presentation clears the frame buffer, draws one text line per quantity
//! at its fixed position and flushes the buffer to the panel in one
//! transfer. [`PresentStage`] sequences the commands and stops at the first
//! one that fails; [`Frame`] says what the buffer and the panel hold after
//! them.

use vstd::prelude::*;
use crate::sensor::{Measurement, Quantity};

verus! {

/// A pixel position on the panel.
#[derive(Clone, Copy, Debug, PartialEq, Eq)]
pub struct Point {
    pub x: i32,
    pub y: i32,
}

/// Where the line of a quantity starts: (1, 10), (1, 20) and (1, 30).
pub open spec fn origin_of(quantity: Quantity) -> Point {
    match quantity {
        Quantity::Temperature => Point { x: 1, y: 10 },
        Quantity::Humidity => Point { x: 1, y: 20 },
        Quantity::Pressure => Point { x: 1, y: 30 },
    }
}

/// The words in front of the value.
pub open spec fn label_of(quantity: Quantity) -> Seq<char> {
    match quantity {
        Quantity::Temperature => "Temperature: "@,
        Quantity::Humidity => "Humidity: "@,
        Quantity::Pressure => "Pressure: "@,
    }
}

/// The unit behind the value.
pub open spec fn unit_of(quantity: Quantity) -> Seq<char> {
    match quantity {
        Quantity::Temperature => " C"@,
        Quantity::Humidity => " %"@,
        Quantity::Pressure => " pascals"@,
    }
}

/// One line of the frame: a quantity and the decimal text of its value.
#[derive(Debug, PartialEq, Eq)]
pub struct TextLine {
    pub quantity: Quantity,
    pub value: String,
}

impl Clone for TextLine {
    fn clone(&self) -> (copy: Self)
        ensures
            copy == *self,
    {
        TextLine { quantity: self.quantity, value: self.value.clone() }
    }
}

impl TextLine {
    /// The characters of the line: label, value, unit.
    pub open spec fn text_of(self) -> Seq<char> {
        label_of(self.quantity) + self.value@ + unit_of(self.quantity)
    }

    /// Where the line starts on the panel.
    pub fn origin(&self) -> (origin: Point)
        ensures
            origin == origin_of(self.quantity),
    {
        match self.quantity {
            Quantity::Temperature => Point { x: 1, y: 10 },
            Quantity::Humidity => Point { x: 1, y: 20 },
            Quantity::Pressure => Point { x: 1, y: 30 },
        }
    }

    /// The text to draw, such as `Temperature: 21.5 C`.
    pub fn text(&self) -> (text: String)
        ensures
            text@ == self.text_of(),
    {
        let (label, unit) = match self.quantity {
            Quantity::Temperature => ("Temperature: ", " C"),
            Quantity::Humidity => ("Humidity: ", " %"),
            Quantity::Pressure => ("Pressure: ", " pascals"),
        };
        let mut text = String::from_str(label);
        text.append(self.value.as_str());
        text.append(unit);
        text
    }
}

/// The line that shows one quantity of a snapshot.
pub open spec fn line_of(measurement: Measurement, quantity: Quantity) -> TextLine {
    TextLine { quantity, value: measurement.value_of(quantity) }
}

/// The three lines of a snapshot: temperature, humidity, pressure.
pub open spec fn lines_of(measurement: Measurement) -> Seq<TextLine> {
    seq![
        line_of(measurement, Quantity::Temperature),
        line_of(measurement, Quantity::Humidity),
        line_of(measurement, Quantity::Pressure),
    ]
}

/// One transaction with the display.
#[derive(Debug, PartialEq, Eq)]
pub enum DisplayCommand {
    /// Blank the whole frame buffer.
    Clear,
    /// Draw a line into the frame buffer.
    Draw(TextLine),
    /// Transfer the frame buffer to the panel, all or nothing.
    Flush,
}

impl Clone for DisplayCommand {
    fn clone(&self) -> (copy: Self)
        ensures
            copy == *self,
    {
        match self {
            DisplayCommand::Clear => DisplayCommand::Clear,
            DisplayCommand::Draw(line) => DisplayCommand::Draw(line.clone()),
            DisplayCommand::Flush => DisplayCommand::Flush,
        }
    }
}

/// Why a presentation did not reach the panel.
#[derive(Clone, Copy, Debug, PartialEq, Eq)]
pub enum DisplayError {
    /// Clearing or drawing into the frame buffer failed.
    RenderFault,
    /// The transfer to the panel failed.
    FlushFault,
}

/// The whole presentation of a snapshot, command by command.
pub open spec fn script_of(measurement: Measurement) -> Seq<DisplayCommand> {
    seq![
        DisplayCommand::Clear,
        DisplayCommand::Draw(line_of(measurement, Quantity::Temperature)),
        DisplayCommand::Draw(line_of(measurement, Quantity::Humidity)),
        DisplayCommand::Draw(line_of(measurement, Quantity::Pressure)),
        DisplayCommand::Flush,
    ]
}

/// How far a presentation has come. `Shown` and `Failed` are final.
#[derive(Clone, Copy, Debug, PartialEq, Eq)]
pub enum PresentStage {
    Clearing,
    Drawing(Quantity),
    Flushing,
    Shown,
    Failed(DisplayError),
}

impl PresentStage {
    /// The presentation is over.
    pub open spec fn terminal(self) -> bool {
        self is Shown || self is Failed
    }

    /// The command that is outstanding at this stage.
    pub open spec fn command_of(self, measurement: Measurement) -> Option<DisplayCommand> {
        match self {
            PresentStage::Clearing => Some(DisplayCommand::Clear),
            PresentStage::Drawing(quantity) => Some(
                DisplayCommand::Draw(line_of(measurement, quantity)),
            ),
            PresentStage::Flushing => Some(DisplayCommand::Flush),
            PresentStage::Shown => None,
            PresentStage::Failed(_) => None,
        }
    }

    /// The stage that follows once the outstanding command has ended, well
    /// (`done`) or not. A failed flush is a flush fault, any other failure a
    /// render fault; nothing follows a final stage.
    pub open spec fn after(self, done: bool) -> PresentStage {
        match self {
            PresentStage::Clearing => if done {
                PresentStage::Drawing(Quantity::Temperature)
            } else {
                PresentStage::Failed(DisplayError::RenderFault)
            },
            PresentStage::Drawing(quantity) => if !done {
                PresentStage::Failed(DisplayError::RenderFault)
            } else {
                match quantity.successor() {
                    Some(following) => PresentStage::Drawing(following),
                    None => PresentStage::Flushing,
                }
            },
            PresentStage::Flushing => if done {
                PresentStage::Shown
            } else {
                PresentStage::Failed(DisplayError::FlushFault)
            },
            PresentStage::Shown => self,
            PresentStage::Failed(_) => self,
        }
    }

    /// The result of the presentation, once it is over.
    pub open spec fn outcome_of(self) -> Option<Result<(), DisplayError>> {
        match self {
            PresentStage::Shown => Some(Ok(())),
            PresentStage::Failed(reason) => Some(Err(reason)),
            _ => None,
        }
    }

    /// The stage a presentation starts in.
    pub fn first() -> (stage: Self)
        ensures
            stage == PresentStage::Clearing,
    {
        PresentStage::Clearing
    }

    /// Whether the presentation is over.
    pub fn is_terminal(&self) -> (yes: bool)
        ensures
            yes == self.terminal(),
    {
        match self {
            PresentStage::Shown => true,
            PresentStage::Failed(_) => true,
            _ => false,
        }
    }

    /// The command to carry out at this stage, `None` once the presentation
    /// is over.
    pub fn command(&self, measurement: &Measurement) -> (command: Option<DisplayCommand>)
        ensures
            command == self.command_of(*measurement),
    {
        match self {
            PresentStage::Clearing => Some(DisplayCommand::Clear),
            PresentStage::Drawing(quantity) => Some(
                DisplayCommand::Draw(
                    TextLine { quantity: *quantity, value: measurement.value(*quantity) },
                ),
            ),
            PresentStage::Flushing => Some(DisplayCommand::Flush),
            PresentStage::Shown => None,
            PresentStage::Failed(_) => None,
        }
    }

    /// Moves on after the outstanding command has ended.
    pub fn advance(self, done: bool) -> (next: Self)
        ensures
            next == self.after(done),
    {
        match self {
            PresentStage::Clearing => if done {
                PresentStage::Drawing(Quantity::Temperature)
            } else {
                PresentStage::Failed(DisplayError::RenderFault)
            },
            PresentStage::Drawing(quantity) => if !done {
                PresentStage::Failed(DisplayError::RenderFault)
            } else {
                match quantity.next() {
                    Some(following) => PresentStage::Drawing(following),
                    None => PresentStage::Flushing,
                }
            },
            PresentStage::Flushing => if done {
                PresentStage::Shown
            } else {
                PresentStage::Failed(DisplayError::FlushFault)
            },
            PresentStage::Shown => self,
            PresentStage::Failed(_) => self,
        }
    }

    /// `Ok` once the frame is on the panel, the fault once the presentation
    /// failed, `None` while it is still running.
    pub fn outcome(&self) -> (result: Option<Result<(), DisplayError>>)
        ensures
            result == self.outcome_of(),
    {
        match self {
            PresentStage::Shown => Some(Ok(())),
            PresentStage::Failed(reason) => Some(Err(*reason)),
            _ => None,
        }
    }
}

/// The stage reached after the commands ended with `outcomes`, in order.
pub open spec fn stage_after(outcomes: Seq<bool>) -> PresentStage
    decreases outcomes.len(),
{
    if outcomes.len() == 0 {
        PresentStage::Clearing
    } else {
        stage_after(outcomes.drop_last()).after(outcomes.last())
    }
}

/// The commands asked for while the earlier ones ended with `outcomes`,
/// the first one included.
pub open spec fn commands_issued(measurement: Measurement, outcomes: Seq<bool>) -> Seq<DisplayCommand>
    decreases outcomes.len(),
{
    if outcomes.len() == 0 {
        seq![DisplayCommand::Clear]
    } else {
        let earlier = commands_issued(measurement, outcomes.drop_last());
        match stage_after(outcomes).command_of(measurement) {
            Some(command) => earlier.push(command),
            None => earlier,
        }
    }
}

/// What the display holds: the lines drawn into the frame buffer since it
/// was last cleared, and the lines on the panel.
pub struct Frame {
    pub buffer: Seq<TextLine>,
    pub visible: Seq<TextLine>,
}

impl Frame {
    /// The display after a command that went through.
    pub open spec fn after(self, command: DisplayCommand) -> Frame {
        match command {
            DisplayCommand::Clear => Frame { buffer: Seq::empty(), visible: self.visible },
            DisplayCommand::Draw(line) => Frame {
                buffer: self.buffer.push(line),
                visible: self.visible,
            },
            DisplayCommand::Flush => Frame { buffer: self.buffer, visible: self.buffer },
        }
    }

    /// The display after a presentation of `measurement` whose commands
    /// ended with `outcomes`. A command that failed leaves the panel as it
    /// was.
    pub open spec fn after_presenting(self, measurement: Measurement, outcomes: Seq<bool>) -> Frame
        decreases outcomes.len(),
    {
        if outcomes.len() == 0 {
            self
        } else {
            let earlier = self.after_presenting(measurement, outcomes.drop_last());
            match stage_after(outcomes.drop_last()).command_of(measurement) {
                Some(command) => if outcomes.last() {
                    earlier.after(command)
                } else {
                    earlier
                },
                None => earlier,
            }
        }
    }
}

/// What holds of the display at each stage of a presentation that began on
/// `before`.
pub open spec fn frame_at_stage(
    before: Frame,
    measurement: Measurement,
    stage: PresentStage,
    now: Frame,
) -> bool {
    match stage {
        PresentStage::Clearing => now == before,
        PresentStage::Drawing(quantity) => {
            &&& now.visible == before.visible
            &&& now.buffer == lines_of(measurement).take(quantity.rank() as int)
        },
        PresentStage::Flushing => {
            &&& now.visible == before.visible
            &&& now.buffer == lines_of(measurement)
        },
        PresentStage::Shown => {
            &&& now.visible == lines_of(measurement)
            &&& now.buffer == lines_of(measurement)
        },
        PresentStage::Failed(_) => now.visible == before.visible,
    }
}

/// The frame follows the stages: the panel keeps what it showed until the
/// flush goes through, and then shows the three lines of the snapshot.
pub proof fn lemma_frame_follows_stage(before: Frame, measurement: Measurement, outcomes: Seq<bool>)
    ensures
        frame_at_stage(
            before,
            measurement,
            stage_after(outcomes),
            before.after_presenting(measurement, outcomes),
        ),
    decreases outcomes.len(),
{
    if outcomes.len() > 0 {
        lemma_frame_follows_stage(before, measurement, outcomes.drop_last());
        let lines = lines_of(measurement);
        assert(lines.take(0) == Seq::<TextLine>::empty());
        assert(lines.take(0).push(lines[0]) == lines.take(1));
        assert(lines.take(1).push(lines[1]) == lines.take(2));
        assert(lines.take(2).push(lines[2]) == lines);
    }
}

/// A presentation that fails, at whatever command, leaves the panel
/// showing what it showed before.
pub proof fn lemma_failed_presentation_keeps_panel(
    before: Frame,
    measurement: Measurement,
    outcomes: Seq<bool>,
)
    requires
        stage_after(outcomes) is Failed,
    ensures
        before.after_presenting(measurement, outcomes).visible == before.visible,
{
    lemma_frame_follows_stage(before, measurement, outcomes);
}

/// Presenting is idempotent: a presentation that goes through puts the
/// three lines of the snapshot on the panel whatever was there before, so
/// presenting the same snapshot again leaves an identical frame.
pub proof fn lemma_presenting_twice_shows_same_frame(
    before: Frame,
    measurement: Measurement,
    first: Seq<bool>,
    second: Seq<bool>,
)
    requires
        stage_after(first) is Shown,
        stage_after(second) is Shown,
    ensures
        before.after_presenting(measurement, first).visible == lines_of(measurement),
        before.after_presenting(measurement, first).after_presenting(measurement, second)
            == before.after_presenting(measurement, first),
{
    let once = before.after_presenting(measurement, first);
    lemma_frame_follows_stage(before, measurement, first);
    lemma_frame_follows_stage(once, measurement, second);
}

/// Five commands that all go through complete a presentation.
pub proof fn lemma_five_successes_show_frame()
    ensures
        stage_after(seq![true, true, true, true, true]) == PresentStage::Shown,
{
    let all = seq![true, true, true, true, true];
    assert(all.drop_last() == seq![true, true, true, true]);
    assert(all.drop_last().drop_last() == seq![true, true, true]);
    assert(all.drop_last().drop_last().drop_last() == seq![true, true]);
    assert(all.drop_last().drop_last().drop_last().drop_last() == seq![true]);
    assert(seq![true].drop_last() == Seq::<bool>::empty());
    reveal_with_fuel(stage_after, 6);
}

/// The commands of a presentation come in the order of the script, and a
/// presentation that reached the panel has carried out the whole script.
pub proof fn lemma_commands_follow_script(measurement: Measurement, outcomes: Seq<bool>)
    ensures
        commands_issued(measurement, outcomes) == script_of(measurement).take(
            commands_issued(measurement, outcomes).len() as int,
        ),
        match stage_after(outcomes) {
            PresentStage::Clearing => commands_issued(measurement, outcomes).len() == 1,
            PresentStage::Drawing(quantity) => commands_issued(measurement, outcomes).len()
                == quantity.rank() + 2,
            PresentStage::Flushing => commands_issued(measurement, outcomes).len() == 5,
            PresentStage::Shown => commands_issued(measurement, outcomes).len() == 5,
            PresentStage::Failed(_) => 1 <= commands_issued(measurement, outcomes).len() <= 5,
        },
    decreases outcomes.len(),
{
    let script = script_of(measurement);
    if outcomes.len() == 0 {
        assert(seq![DisplayCommand::Clear] == script.take(1));
    } else {
        lemma_commands_follow_script(measurement, outcomes.drop_last());
        let earlier = commands_issued(measurement, outcomes.drop_last());
        assert(script.take(1).push(script[1]) == script.take(2));
        assert(script.take(2).push(script[2]) == script.take(3));
        assert(script.take(3).push(script[3]) == script.take(4));
        assert(script.take(4).push(script[4]) == script.take(5));
    }
}

/// A display to run presentations against: a frame buffer and a panel.
#[derive(Debug, PartialEq, Eq)]
pub struct Panel {
    pub buffer: Vec<TextLine>,
    pub visible: Vec<TextLine>,
}

impl View for Panel {
    type V = Frame;

    open spec fn view(&self) -> Frame {
        Frame { buffer: self.buffer@, visible: self.visible@ }
    }
}

impl Panel {
    /// A display with an empty frame buffer and a dark panel.
    pub fn new() -> (panel: Self)
        ensures
            panel@ == (Frame { buffer: Seq::empty(), visible: Seq::empty() }),
    {
        Panel { buffer: Vec::new(), visible: Vec::new() }
    }

    /// Carries out one command.
    pub fn execute(&mut self, command: &DisplayCommand)
        ensures
            final(self)@ == old(self)@.after(*command),
    {
        match command {
            DisplayCommand::Clear => {
                self.buffer = Vec::new();
            },
            DisplayCommand::Draw(line) => {
                self.buffer.push(line.clone());
            },
            DisplayCommand::Flush => {
                let mut shown: Vec<TextLine> = Vec::new();
                let mut i: usize = 0;
                while i < self.buffer.len()
                    invariant
                        i <= self.buffer.len(),
                        shown@ == self.buffer@.take(i as int),
                    decreases self.buffer.len() - i,
                {
                    shown.push(self.buffer[i].clone());
                    proof {
                        assert(self.buffer@.take(i as int).push(self.buffer@[i as int])
                            == self.buffer@.take(i + 1));
                    }
                    i += 1;
                }
                proof {
                    assert(self.buffer@.take(self.buffer.len() as int) == self.buffer@);
                }
                self.visible = shown;
            },
        }
    }
}

} // verus!
