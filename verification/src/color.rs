use vstd::prelude::*;
use vstd::string::StringExecFns;

verus! {

/// Type of the message represented.
#[derive(Debug, Clone, Copy, PartialEq, Eq, Structural)]
pub enum MsgType {
    Info,
    Warn,
    Error,
    Hint,
}

/// When a message is printed in colors.
#[derive(Debug, Clone, Copy, PartialEq, Eq, Structural)]
pub enum ColorChoice {
    /// In colors where the stream is a terminal.
    Auto,
    /// Never in colors.
    Never,
}

/// The stream that a message is printed on.
#[derive(Debug, Clone, Copy, PartialEq, Eq, Structural)]
pub enum Stream {
    Stdout,
    Stderr,
}

/// The color of a message's prefix.
#[derive(Debug, Clone, Copy, PartialEq, Eq, Structural)]
pub enum Color {
    Green,
    Yellow,
    Red,
    Cyan,
}

/// How the prefix of a message is printed, and where the message goes.
#[derive(Debug, Clone, Copy, PartialEq, Eq, Structural)]
pub struct Style {
    pub color: Color,
    pub bold: bool,
    pub dimmed: bool,
    pub stream: Stream,
}

impl MsgType {
    /// Information and hints go to the standard output, warnings and errors
    /// to the standard error.
    pub open spec fn stream_of(self) -> Stream {
        match self {
            MsgType::Info | MsgType::Hint => Stream::Stdout,
            MsgType::Warn | MsgType::Error => Stream::Stderr,
        }
    }

    /// Green, yellow and red in bold for information, warnings and errors;
    /// dimmed cyan for hints.
    pub open spec fn style_of(self) -> Style {
        match self {
            MsgType::Info => Style {
                color: Color::Green,
                bold: true,
                dimmed: false,
                stream: Stream::Stdout,
            },
            MsgType::Warn => Style {
                color: Color::Yellow,
                bold: true,
                dimmed: false,
                stream: Stream::Stderr,
            },
            MsgType::Error => Style {
                color: Color::Red,
                bold: true,
                dimmed: false,
                stream: Stream::Stderr,
            },
            MsgType::Hint => Style {
                color: Color::Cyan,
                bold: false,
                dimmed: true,
                stream: Stream::Stdout,
            },
        }
    }

    /// The stream that messages of this type are printed on.
    pub fn stream(&self) -> (stream: Stream)
        ensures
            stream == self.stream_of(),
    {
        match self {
            MsgType::Info | MsgType::Hint => Stream::Stdout,
            MsgType::Warn | MsgType::Error => Stream::Stderr,
        }
    }

    /// How the prefix of a message of this type is printed.
    pub fn style(&self) -> (style: Style)
        ensures
            style == self.style_of(),
            style.stream == self.stream_of(),
    {
        match self {
            MsgType::Info => Style {
                color: Color::Green,
                bold: true,
                dimmed: false,
                stream: Stream::Stdout,
            },
            MsgType::Warn => Style {
                color: Color::Yellow,
                bold: true,
                dimmed: false,
                stream: Stream::Stderr,
            },
            MsgType::Error => Style {
                color: Color::Red,
                bold: true,
                dimmed: false,
                stream: Stream::Stderr,
            },
            MsgType::Hint => Style {
                color: Color::Cyan,
                bold: false,
                dimmed: true,
                stream: Stream::Stdout,
            },
        }
    }
}

/// Asks `atty::is` whether `stream` is a terminal. The answer depends on how
/// the process was started, so nothing is claimed of it.
#[verifier::external_body]
fn is_terminal(stream: Stream) -> (terminal: bool) {
    match stream {
        Stream::Stdout => atty::is(atty::Stream::Stdout),
        Stream::Stderr => atty::is(atty::Stream::Stderr),
    }
}

/// Colors are used where they are not switched off and the stream is a
/// terminal.
pub open spec fn choice_of(no_color: bool, terminal: bool) -> ColorChoice {
    if !no_color && terminal {
        ColorChoice::Auto
    } else {
        ColorChoice::Never
    }
}

/// Returns `ColorChoice::Auto` or `ColorChoice::Never` based on the stream
/// being a terminal or not and `no_color` being true or false.
pub fn color_choice_on(no_color: bool, terminal: bool) -> (choice: ColorChoice)
    ensures
        choice == choice_of(no_color, terminal),
{
    if no_color {
        return ColorChoice::Never;
    }
    if terminal {
        ColorChoice::Auto
    } else {
        ColorChoice::Never
    }
}

/// Returns `ColorChoice::Auto` or `ColorChoice::Never` based on the stream of
/// the message type being a terminal or not, which is asked only where colors
/// are not switched off, and `no_color` being true or false.
pub fn color_choice(msg_type: &MsgType, no_color: bool) -> (choice: ColorChoice)
    ensures
        no_color ==> choice == ColorChoice::Never,
        exists|terminal: bool| choice == choice_of(no_color, terminal),
{
    if no_color {
        assert(ColorChoice::Never == choice_of(no_color, false));
        return ColorChoice::Never;
    }
    let terminal = is_terminal(msg_type.stream());
    let choice = color_choice_on(no_color, terminal);
    assert(choice == choice_of(no_color, terminal));
    choice
}

/// Message Colorizer.
#[derive(Debug)]
pub struct Colorizer {
    /// When the message is printed in colors.
    color_when: ColorChoice,
    /// Whether the message is information, a warning, an error or a hint.
    msg_type: MsgType,
    /// Portion of the message preceding `:`.
    prefix: String,
    /// Body of the message.
    body: String,
}

impl Colorizer {
    pub closed spec fn color_when(&self) -> ColorChoice {
        self.color_when
    }

    pub closed spec fn msg_type(&self) -> MsgType {
        self.msg_type
    }

    pub closed spec fn prefix(&self) -> Seq<char> {
        self.prefix@
    }

    pub closed spec fn body(&self) -> Seq<char> {
        self.body@
    }

    /// The message without colors: prefix, colon, space, body.
    pub open spec fn plain(&self) -> Seq<char> {
        self.prefix() + ": "@ + self.body()
    }

    /// The part of the message that is printed in the style of its type:
    /// prefix and colon.
    pub open spec fn head(&self) -> Seq<char> {
        self.prefix() + ":"@
    }

    /// The part of the message that is printed without style: space, body and
    /// the end of the line.
    pub open spec fn tail(&self) -> Seq<char> {
        " "@ + self.body() + "\n"@
    }

    /// Construct a Colorizer with empty prefix & body, for a stream of which
    /// it is known whether it is a terminal.
    pub fn empty_on(msg_type: MsgType, no_color: bool, terminal: bool) -> (made: Self)
        ensures
            made.msg_type() == msg_type,
            made.color_when() == choice_of(no_color, terminal),
            made.prefix() == Seq::<char>::empty(),
            made.body() == Seq::<char>::empty(),
    {
        Colorizer {
            color_when: color_choice_on(no_color, terminal),
            msg_type,
            prefix: String::new(),
            body: String::new(),
        }
    }

    /// Construct a Colorizer, for a stream of which it is known whether it is
    /// a terminal.
    pub fn new_on(msg_type: MsgType, no_color: bool, terminal: bool, prefix: &str, body: &str) -> (made:
        Self)
        ensures
            made.msg_type() == msg_type,
            made.color_when() == choice_of(no_color, terminal),
            made.prefix() == prefix@,
            made.body() == body@,
    {
        Colorizer {
            color_when: color_choice_on(no_color, terminal),
            msg_type,
            prefix: prefix.to_owned(),
            body: body.to_owned(),
        }
    }

    /// Construct Colorizer instance with empty prefix & body.
    pub fn empty(msg_type: MsgType, no_color: bool) -> (made: Self)
        ensures
            made.msg_type() == msg_type,
            no_color ==> made.color_when() == ColorChoice::Never,
            exists|terminal: bool| made.color_when() == choice_of(no_color, terminal),
            made.prefix() == Seq::<char>::empty(),
            made.body() == Seq::<char>::empty(),
    {
        Colorizer {
            color_when: color_choice(&msg_type, no_color),
            msg_type,
            prefix: String::new(),
            body: String::new(),
        }
    }

    /// Construct a Colorizer instance.
    pub fn new(msg_type: MsgType, no_color: bool, prefix: &str, body: &str) -> (made: Self)
        ensures
            made.msg_type() == msg_type,
            no_color ==> made.color_when() == ColorChoice::Never,
            exists|terminal: bool| made.color_when() == choice_of(no_color, terminal),
            made.prefix() == prefix@,
            made.body() == body@,
    {
        Colorizer {
            color_when: color_choice(&msg_type, no_color),
            msg_type,
            prefix: prefix.to_owned(),
            body: body.to_owned(),
        }
    }

    /// Update prefix & body field values.
    pub fn update(&mut self, prefix: &str, body: &str)
        ensures
            final(self).prefix() == prefix@,
            final(self).body() == body@,
            final(self).msg_type() == old(self).msg_type(),
            final(self).color_when() == old(self).color_when(),
    {
        self.prefix = prefix.to_owned();
        self.body = body.to_owned();
    }

    /// When the message is printed in colors.
    pub fn when(&self) -> (choice: ColorChoice)
        ensures
            choice == self.color_when(),
    {
        self.color_when
    }

    /// The type of the message.
    pub fn kind(&self) -> (msg_type: MsgType)
        ensures
            msg_type == self.msg_type(),
    {
        self.msg_type
    }

    /// The styled part of the printed message: prefix and colon.
    pub fn label(&self) -> (text: String)
        ensures
            text@ == self.head(),
    {
        self.prefix.clone().concat(":")
    }

    /// The unstyled part of the printed message: space, body, end of line.
    pub fn rest(&self) -> (text: String)
        ensures
            text@ == self.tail(),
    {
        " ".to_owned().concat(self.body.as_str()).concat("\n")
    }

    /// The message with no colors.
    pub fn text(&self) -> (text: String)
        ensures
            text@ == self.plain(),
    {
        self.prefix.clone().concat(": ").concat(self.body.as_str())
    }
}

} // verus!
