use test_gui::{Color, Effect, Error, Model, Msg};

fn connected_on(port: &str) -> Model {
    let mut model = Model::new();
    model.update(Msg::UpdatePort(String::from(port)));
    assert_eq!(model.update(Msg::Connect), Effect::Connect(String::from(port)));
    model.connected();
    model
}

#[test]
fn panel_starts_disconnected() {
    let model = Model::new();
    assert_eq!(model.port(), "");
    assert!(!model.is_connected());
    assert_eq!(model.connection_status(), "Disconnected.");
    assert_eq!(model.ping_status(), "Not yet.");
    assert_eq!(model.color(), Color { hue: 0, sat: 255, val: 100 });
    assert_eq!(model.button_label(), "Connect");
    assert_eq!(model.button_message(), Msg::Connect);
}

#[test]
fn port_entry_is_taken_over() {
    let mut model = Model::new();
    assert_eq!(model.update(Msg::UpdatePort(String::from("/dev/ttyUSB0"))), Effect::Nothing);
    assert_eq!(model.port(), "/dev/ttyUSB0");
    assert_eq!(model.update(Msg::UpdatePort(String::from("/dev/ttyUSB1"))), Effect::Nothing);
    assert_eq!(model.port(), "/dev/ttyUSB1");
}

#[test]
fn connect_asks_for_the_port_of_the_entry() {
    let mut model = Model::new();
    model.update(Msg::UpdatePort(String::from("/dev/ttyACM0")));
    assert_eq!(model.update(Msg::Connect), Effect::Connect(String::from("/dev/ttyACM0")));
    assert!(!model.is_connected());
    assert_eq!(model.connection_status(), "Disconnected.");
}

#[test]
fn connected_shows_the_port() {
    let model = connected_on("/dev/ttyACM0");
    assert!(model.is_connected());
    assert_eq!(model.connection_status(), "Connected to /dev/ttyACM0.");
    assert_eq!(model.button_label(), "Disconnect");
    assert_eq!(model.button_message(), Msg::Disconnect);
}

#[test]
fn connect_failed_shows_the_reason() {
    let mut model = Model::new();
    model.update(Msg::UpdatePort(String::from("nowhere")));
    model.update(Msg::Connect);
    model.connect_failed("No such file or directory");
    assert!(!model.is_connected());
    assert_eq!(model.connection_status(), "Error: No such file or directory.");
    assert_eq!(model.button_label(), "Connect");
}

#[test]
fn disconnect_resets_the_texts() {
    let mut model = connected_on("/dev/ttyACM0");
    model.update(Msg::Ping);
    model.ping_finished(Ok(()));
    assert_eq!(model.update(Msg::Disconnect), Effect::Disconnect);
    assert!(!model.is_connected());
    assert_eq!(model.connection_status(), "Disconnected.");
    assert_eq!(model.ping_status(), "Not yet.");
    assert_eq!(model.port(), "/dev/ttyACM0");
    assert_eq!(model.button_label(), "Connect");
}

#[test]
fn ping_without_a_line_does_nothing() {
    let mut model = Model::new();
    assert_eq!(model.update(Msg::Ping), Effect::Nothing);
    assert_eq!(model.ping_status(), "Not yet.");
}

#[test]
fn ping_with_a_line_is_asked_for() {
    let mut model = connected_on("port");
    assert_eq!(model.update(Msg::Ping), Effect::Ping);
    assert_eq!(model.ping_status(), "Not yet.");
}

#[test]
fn ping_finished_shows_the_outcome() {
    let mut model = connected_on("port");
    model.ping_finished(Ok(()));
    assert_eq!(model.ping_status(), "Pong!");
    model.ping_finished(Err(Error::TimeoutError));
    assert_eq!(model.ping_status(), "Error :(");
    model.ping_finished(Err(Error::UnexpectedReply));
    assert_eq!(model.ping_status(), "Error :(");
    model.ping_finished(Ok(()));
    assert_eq!(model.ping_status(), "Pong!");
}

#[test]
fn slider_without_a_line_only_changes_the_colour() {
    let mut model = Model::new();
    assert_eq!(model.update(Msg::UpdateHue(42)), Effect::Nothing);
    assert_eq!(model.color(), Color { hue: 42, sat: 255, val: 100 });
}

#[test]
fn slider_with_a_line_sends_the_whole_colour() {
    let mut model = connected_on("port");
    assert_eq!(
        model.update(Msg::UpdateHue(10)),
        Effect::UpdateColor(Color { hue: 10, sat: 255, val: 100 })
    );
    assert_eq!(
        model.update(Msg::UpdateSat(200)),
        Effect::UpdateColor(Color { hue: 10, sat: 200, val: 100 })
    );
    assert_eq!(
        model.update(Msg::UpdateVal(50)),
        Effect::UpdateColor(Color { hue: 10, sat: 200, val: 50 })
    );
    assert_eq!(model.color(), Color { hue: 10, sat: 200, val: 50 });
}

#[test]
fn slider_on_the_same_value_does_nothing() {
    let mut model = connected_on("port");
    assert_eq!(model.update(Msg::UpdateHue(0)), Effect::Nothing);
    assert_eq!(model.update(Msg::UpdateSat(255)), Effect::Nothing);
    assert_eq!(model.update(Msg::UpdateVal(100)), Effect::Nothing);
    assert_eq!(model.color(), Color { hue: 0, sat: 255, val: 100 });
    assert_eq!(
        model.update(Msg::UpdateVal(101)),
        Effect::UpdateColor(Color { hue: 0, sat: 255, val: 101 })
    );
    assert_eq!(model.update(Msg::UpdateVal(101)), Effect::Nothing);
}

#[test]
fn quit_is_handed_on() {
    let mut model = connected_on("port");
    assert_eq!(model.update(Msg::Quit), Effect::Quit);
    assert!(model.is_connected());
}
