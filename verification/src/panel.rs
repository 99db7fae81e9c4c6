//! The state behind the control panel, and what each message does to it.
//!
//! The panel itself (window, entry, buttons, sliders) belongs to the caller.
//! It turns what the user does into a [`Msg`], hands it to [`Model::update`],
//! and carries out the [`Effect`] that comes back. What the serial line
//! answered is reported through [`Model::connected`],
//! [`Model::connect_failed`] and [`Model::ping_finished`].

use crate::color::Color;
use crate::error::Error;
use vstd::prelude::*;
use vstd::string::*;

verus! {

/// What the user did on the panel.
#[derive(Debug, PartialEq, Eq)]
pub enum Msg {
    /// The text of the port entry changed.
    UpdatePort(String),
    /// The hue slider moved.
    UpdateHue(u8),
    /// The saturation slider moved.
    UpdateSat(u8),
    /// The value slider moved.
    UpdateVal(u8),
    /// The connect button was clicked while it read "Connect".
    Connect,
    /// The connect button was clicked while it read "Disconnect".
    Disconnect,
    /// The ping button was clicked.
    Ping,
    /// The window was closed.
    Quit,
}

/// What the caller has to do after a message.
#[derive(Debug, PartialEq, Eq)]
pub enum Effect {
    /// Nothing.
    Nothing,
    /// Open the serial line on this port and report how it went.
    Connect(String),
    /// Close the serial line.
    Disconnect,
    /// Ping the device and report how it went.
    Ping,
    /// Send this colour to the device; the outcome is of no interest.
    UpdateColor(Color),
    /// Leave the main loop.
    Quit,
}

/// An [`Effect`] as a mathematical value.
pub enum EffectView {
    Nothing,
    Connect(Seq<char>),
    Disconnect,
    Ping,
    UpdateColor(Color),
    Quit,
}

impl View for Effect {
    type V = EffectView;

    open spec fn view(&self) -> EffectView {
        match *self {
            Effect::Nothing => EffectView::Nothing,
            Effect::Connect(port) => EffectView::Connect(port@),
            Effect::Disconnect => EffectView::Disconnect,
            Effect::Ping => EffectView::Ping,
            Effect::UpdateColor(color) => EffectView::UpdateColor(color),
            Effect::Quit => EffectView::Quit,
        }
    }
}

/// The state behind the panel.
#[derive(Debug, PartialEq, Eq)]
pub struct Model {
    port: String,
    connected: bool,
    connection_status: String,
    ping_status: String,
    color: Color,
}

/// A [`Model`] as a mathematical value.
pub struct ModelView {
    /// The port as the entry shows it.
    pub port: Seq<char>,
    /// Whether the serial line is open.
    pub connected: bool,
    /// The text beside the connect button.
    pub connection_status: Seq<char>,
    /// The text beside the ping button.
    pub ping_status: Seq<char>,
    /// The colour as the sliders show it.
    pub color: Color,
}

impl View for Model {
    type V = ModelView;

    closed spec fn view(&self) -> ModelView {
        ModelView {
            port: self.port@,
            connected: self.connected,
            connection_status: self.connection_status@,
            ping_status: self.ping_status@,
            color: self.color,
        }
    }
}

/// The panel before anything happened: no port, no line, full saturation.
pub open spec fn initial() -> ModelView {
    ModelView {
        port: Seq::empty(),
        connected: false,
        connection_status: "Disconnected."@,
        ping_status: "Not yet."@,
        color: Color { hue: 0, sat: 255, val: 100 },
    }
}

/// What a moved slider does: a colour that differs from the one shown is
/// taken over, and sent if the line is open; the same colour does nothing.
pub open spec fn recolor(model: ModelView, color: Color) -> (ModelView, EffectView) {
    if color == model.color {
        (model, EffectView::Nothing)
    } else if model.connected {
        (ModelView { color, ..model }, EffectView::UpdateColor(color))
    } else {
        (ModelView { color, ..model }, EffectView::Nothing)
    }
}

/// What a message does to the panel, and what it asks of the caller.
pub open spec fn react(model: ModelView, msg: Msg) -> (ModelView, EffectView) {
    match msg {
        Msg::UpdatePort(port) => (ModelView { port: port@, ..model }, EffectView::Nothing),
        Msg::UpdateHue(hue) => recolor(model, Color { hue, ..model.color }),
        Msg::UpdateSat(sat) => recolor(model, Color { sat, ..model.color }),
        Msg::UpdateVal(val) => recolor(model, Color { val, ..model.color }),
        Msg::Connect => (model, EffectView::Connect(model.port)),
        Msg::Disconnect => (
            ModelView {
                connected: false,
                connection_status: "Disconnected."@,
                ping_status: "Not yet."@,
                ..model
            },
            EffectView::Disconnect,
        ),
        Msg::Ping => if model.connected {
            (model, EffectView::Ping)
        } else {
            (model, EffectView::Nothing)
        },
        Msg::Quit => (model, EffectView::Quit),
    }
}

impl Model {
    /// The panel before anything happened.
    pub fn new() -> (model: Model)
        ensures
            model@ == initial(),
    {
        Model {
            port: String::new(),
            connected: false,
            connection_status: String::from_str("Disconnected."),
            ping_status: String::from_str("Not yet."),
            color: Color { hue: 0, sat: 255, val: 100 },
        }
    }

    /// Takes a message in and says what the caller has to do.
    pub fn update(&mut self, event: Msg) -> (effect: Effect)
        ensures
            (final(self)@, effect@) == react(old(self)@, event),
    {
        match event {
            Msg::UpdatePort(port) => {
                self.port = port;
                Effect::Nothing
            },
            Msg::UpdateHue(hue) => {
                let color = Color { hue, sat: self.color.sat, val: self.color.val };
                self.show(color)
            },
            Msg::UpdateSat(sat) => {
                let color = Color { hue: self.color.hue, sat, val: self.color.val };
                self.show(color)
            },
            Msg::UpdateVal(val) => {
                let color = Color { hue: self.color.hue, sat: self.color.sat, val };
                self.show(color)
            },
            Msg::Connect => Effect::Connect(self.port.clone()),
            Msg::Disconnect => {
                self.connected = false;
                self.connection_status = String::from_str("Disconnected.");
                self.ping_status = String::from_str("Not yet.");
                Effect::Disconnect
            },
            Msg::Ping => {
                if self.connected {
                    Effect::Ping
                } else {
                    Effect::Nothing
                }
            },
            Msg::Quit => Effect::Quit,
        }
    }

    fn show(&mut self, color: Color) -> (effect: Effect)
        ensures
            (final(self)@, effect@) == recolor(old(self)@, color),
    {
        if color == self.color {
            Effect::Nothing
        } else {
            self.color = color;
            if self.connected {
                Effect::UpdateColor(color)
            } else {
                Effect::Nothing
            }
        }
    }

    /// The serial line was opened on the port of the entry.
    pub fn connected(&mut self)
        ensures
            final(self)@ == (ModelView {
                connected: true,
                connection_status: "Connected to "@ + old(self)@.port + "."@,
                ..old(self)@
            }),
    {
        self.connected = true;
        self.connection_status = String::from_str("Connected to ").concat(
            self.port.as_str(),
        ).concat(".");
    }

    /// The serial line could not be opened, for the reason given.
    pub fn connect_failed(&mut self, reason: &str)
        ensures
            final(self)@ == (ModelView {
                connection_status: "Error: "@ + reason@ + "."@,
                ..old(self)@
            }),
    {
        self.connection_status = String::from_str("Error: ").concat(reason).concat(".");
    }

    /// A ping came to its end.
    pub fn ping_finished(&mut self, result: Result<(), Error>)
        ensures
            final(self)@ == (ModelView {
                ping_status: if result is Ok {
                    "Pong!"@
                } else {
                    "Error :("@
                },
                ..old(self)@
            }),
    {
        self.ping_status = match result {
            Ok(_) => String::from_str("Pong!"),
            Err(_) => String::from_str("Error :("),
        };
    }

    /// The port as the entry shows it.
    pub fn port(&self) -> (port: &str)
        ensures
            port@ == self@.port,
    {
        self.port.as_str()
    }

    /// Whether the serial line is open.
    pub fn is_connected(&self) -> (connected: bool)
        ensures
            connected == self@.connected,
    {
        self.connected
    }

    /// The text beside the connect button.
    pub fn connection_status(&self) -> (text: &str)
        ensures
            text@ == self@.connection_status,
    {
        self.connection_status.as_str()
    }

    /// The text beside the ping button.
    pub fn ping_status(&self) -> (text: &str)
        ensures
            text@ == self@.ping_status,
    {
        self.ping_status.as_str()
    }

    /// The colour as the sliders show it.
    pub fn color(&self) -> (color: Color)
        ensures
            color == self@.color,
    {
        self.color
    }

    /// What the connect button reads.
    pub fn button_label(&self) -> (label: &'static str)
        ensures
            label@ == if self@.connected {
                "Disconnect"@
            } else {
                "Connect"@
            },
    {
        if self.connected {
            "Disconnect"
        } else {
            "Connect"
        }
    }

    /// The message that a click on the connect button stands for.
    pub fn button_message(&self) -> (msg: Msg)
        ensures
            msg == if self@.connected {
                Msg::Disconnect
            } else {
                Msg::Connect
            },
    {
        if self.connected {
            Msg::Disconnect
        } else {
            Msg::Connect
        }
    }
}

} // verus!
