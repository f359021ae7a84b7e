use koda::display::{DisplayCommand, DisplayError, Panel, Point, PresentStage, TextLine};
use koda::sensor::{Measurement, Quantity};

fn reading(temperature: &str, humidity: &str, pressure: &str) -> Measurement {
    Measurement {
        temperature: temperature.to_string(),
        humidity: humidity.to_string(),
        pressure: pressure.to_string(),
    }
}

fn line(quantity: Quantity, value: &str) -> TextLine {
    TextLine { quantity, value: value.to_string() }
}

/// Runs one presentation against the panel; the command at `failing`, if
/// any, fails and is not carried out.
fn present(
    panel: &mut Panel,
    measurement: &Measurement,
    failing: Option<usize>,
) -> (PresentStage, Vec<DisplayCommand>) {
    let mut stage = PresentStage::first();
    let mut commands = Vec::new();
    while let Some(command) = stage.command(measurement) {
        let done = failing != Some(commands.len());
        if done {
            panel.execute(&command);
        }
        commands.push(command);
        stage = stage.advance(done);
    }
    (stage, commands)
}

fn texts(lines: &[TextLine]) -> Vec<(Point, String)> {
    lines.iter().map(|line| (line.origin(), line.text())).collect()
}

#[test]
fn lines_read_label_value_unit() {
    assert_eq!(line(Quantity::Temperature, "21.5").text(), "Temperature: 21.5 C");
    assert_eq!(line(Quantity::Humidity, "40.25").text(), "Humidity: 40.25 %");
    assert_eq!(line(Quantity::Pressure, "101325").text(), "Pressure: 101325 pascals");
    assert_eq!(line(Quantity::Temperature, "-3").text(), "Temperature: -3 C");
    assert_eq!(line(Quantity::Humidity, "").text(), "Humidity:  %");
}

#[test]
fn lines_sit_at_fixed_positions() {
    assert_eq!(line(Quantity::Temperature, "1").origin(), Point { x: 1, y: 10 });
    assert_eq!(line(Quantity::Humidity, "1").origin(), Point { x: 1, y: 20 });
    assert_eq!(line(Quantity::Pressure, "1").origin(), Point { x: 1, y: 30 });
}

#[test]
fn presentation_clears_draws_three_lines_and_flushes() {
    let snapshot = reading("21.5", "40.25", "101325");
    let mut panel = Panel::new();
    let (stage, commands) = present(&mut panel, &snapshot, None);
    assert_eq!(stage, PresentStage::Shown);
    assert_eq!(stage.outcome(), Some(Ok(())));
    assert_eq!(
        commands,
        vec![
            DisplayCommand::Clear,
            DisplayCommand::Draw(line(Quantity::Temperature, "21.5")),
            DisplayCommand::Draw(line(Quantity::Humidity, "40.25")),
            DisplayCommand::Draw(line(Quantity::Pressure, "101325")),
            DisplayCommand::Flush,
        ]
    );
    assert_eq!(
        texts(&panel.visible),
        vec![
            (Point { x: 1, y: 10 }, "Temperature: 21.5 C".to_string()),
            (Point { x: 1, y: 20 }, "Humidity: 40.25 %".to_string()),
            (Point { x: 1, y: 30 }, "Pressure: 101325 pascals".to_string()),
        ]
    );
}

#[test]
fn presenting_twice_gives_the_same_frame() {
    let snapshot = reading("21.5", "40.25", "101325");
    let mut panel = Panel::new();
    present(&mut panel, &snapshot, None);
    let once = panel.visible.clone();
    let (stage, _) = present(&mut panel, &snapshot, None);
    assert_eq!(stage, PresentStage::Shown);
    assert_eq!(panel.visible, once);
    assert_eq!(panel.visible.len(), 3);
    assert_eq!(panel.buffer, once);
}

#[test]
fn new_snapshot_replaces_the_frame() {
    let mut panel = Panel::new();
    present(&mut panel, &reading("21.5", "40.25", "101325"), None);
    present(&mut panel, &reading("22", "39", "101300"), None);
    assert_eq!(
        panel.visible,
        vec![
            line(Quantity::Temperature, "22"),
            line(Quantity::Humidity, "39"),
            line(Quantity::Pressure, "101300"),
        ]
    );
}

#[test]
fn render_fault_keeps_the_previous_frame() {
    let mut panel = Panel::new();
    present(&mut panel, &reading("21.5", "40.25", "101325"), None);
    let before = panel.visible.clone();
    for failing in 0..4 {
        let (stage, commands) = present(&mut panel, &reading("22", "39", "101300"), Some(failing));
        assert_eq!(stage, PresentStage::Failed(DisplayError::RenderFault));
        assert_eq!(stage.outcome(), Some(Err(DisplayError::RenderFault)));
        assert_eq!(commands.len(), failing + 1);
        assert!(!commands.contains(&DisplayCommand::Flush));
        assert_eq!(panel.visible, before);
    }
}

#[test]
fn flush_fault_keeps_the_previous_frame() {
    let mut panel = Panel::new();
    present(&mut panel, &reading("21.5", "40.25", "101325"), None);
    let before = panel.visible.clone();
    let (stage, commands) = present(&mut panel, &reading("22", "39", "101300"), Some(4));
    assert_eq!(stage, PresentStage::Failed(DisplayError::FlushFault));
    assert_eq!(stage.outcome(), Some(Err(DisplayError::FlushFault)));
    assert_eq!(commands.len(), 5);
    assert_eq!(panel.visible, before);
}

#[test]
fn stages_follow_one_another() {
    assert_eq!(PresentStage::first(), PresentStage::Clearing);
    assert_eq!(PresentStage::Clearing.advance(true), PresentStage::Drawing(Quantity::Temperature));
    assert_eq!(
        PresentStage::Drawing(Quantity::Temperature).advance(true),
        PresentStage::Drawing(Quantity::Humidity)
    );
    assert_eq!(
        PresentStage::Drawing(Quantity::Humidity).advance(true),
        PresentStage::Drawing(Quantity::Pressure)
    );
    assert_eq!(PresentStage::Drawing(Quantity::Pressure).advance(true), PresentStage::Flushing);
    assert_eq!(PresentStage::Flushing.advance(true), PresentStage::Shown);
    assert_eq!(PresentStage::Flushing.outcome(), None);
    assert!(!PresentStage::Flushing.is_terminal());
}

#[test]
fn final_stages_stay_and_ask_for_nothing() {
    let snapshot = reading("21.5", "40.25", "101325");
    for stage in [PresentStage::Shown, PresentStage::Failed(DisplayError::FlushFault)] {
        assert!(stage.is_terminal());
        assert_eq!(stage.advance(true), stage);
        assert_eq!(stage.advance(false), stage);
        assert_eq!(stage.command(&snapshot), None);
    }
}

#[test]
fn panel_executes_commands() {
    let mut panel = Panel::new();
    assert!(panel.buffer.is_empty() && panel.visible.is_empty());
    panel.execute(&DisplayCommand::Draw(line(Quantity::Humidity, "40")));
    assert_eq!(panel.buffer, vec![line(Quantity::Humidity, "40")]);
    assert!(panel.visible.is_empty());
    panel.execute(&DisplayCommand::Flush);
    assert_eq!(panel.visible, vec![line(Quantity::Humidity, "40")]);
    panel.execute(&DisplayCommand::Clear);
    assert!(panel.buffer.is_empty());
    assert_eq!(panel.visible, vec![line(Quantity::Humidity, "40")]);
}
