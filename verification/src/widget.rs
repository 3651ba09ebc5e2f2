//! What the widget puts on display: a text and up to three buttons.

use vstd::prelude::*;
use vstd::string::*;

verus! {

/// The pictures that the widget's elements carry.
#[derive(Clone, Copy, Debug, PartialEq, Eq, Structural)]
pub enum Icon {
    Music,
    Play,
    Pause,
    Next,
    Prev,
}

impl Icon {
    /// The name under which a theme knows the picture.
    pub open spec fn spec_name(self) -> Seq<char> {
        match self {
            Icon::Music => "music"@,
            Icon::Play => "music_play"@,
            Icon::Pause => "music_pause"@,
            Icon::Next => "music_next"@,
            Icon::Prev => "music_prev"@,
        }
    }

    /// The name under which a theme knows the picture.
    pub fn name(self) -> (r: &'static str)
        ensures
            r@ == self.spec_name(),
    {
        match self {
            Icon::Music => "music",
            Icon::Play => "music_play",
            Icon::Pause => "music_pause",
            Icon::Next => "music_next",
            Icon::Prev => "music_prev",
        }
    }
}

/// The three controls, in the order in which they are displayed.
#[derive(Clone, Copy, Debug, PartialEq, Eq, Structural)]
pub enum ButtonKind {
    Prev,
    Play,
    Next,
}

impl ButtonKind {
    /// The control that the identifier `name` stands for.
    pub open spec fn spec_parse(name: Seq<char>) -> Option<ButtonKind> {
        if name == "prev"@ {
            Some(ButtonKind::Prev)
        } else if name == "play"@ {
            Some(ButtonKind::Play)
        } else if name == "next"@ {
            Some(ButtonKind::Next)
        } else {
            None
        }
    }

    /// The identifier of the control, in configuration and in click events.
    pub open spec fn spec_name(self) -> Seq<char> {
        match self {
            ButtonKind::Prev => "prev"@,
            ButtonKind::Play => "play"@,
            ButtonKind::Next => "next"@,
        }
    }

    /// The picture that the control shows when it is created.
    pub open spec fn spec_icon(self) -> Icon {
        match self {
            ButtonKind::Prev => Icon::Prev,
            ButtonKind::Play => Icon::Play,
            ButtonKind::Next => Icon::Next,
        }
    }

    /// Reads an identifier: `prev`, `play` or `next`.
    pub fn parse(name: &str) -> (r: Option<ButtonKind>)
        ensures
            r == ButtonKind::spec_parse(name@),
    {
        let given = String::from_str(name);
        if given == String::from_str("prev") {
            Some(ButtonKind::Prev)
        } else if given == String::from_str("play") {
            Some(ButtonKind::Play)
        } else if given == String::from_str("next") {
            Some(ButtonKind::Next)
        } else {
            None
        }
    }

    /// The identifier of the control.
    pub fn name(self) -> (r: &'static str)
        ensures
            r@ == self.spec_name(),
    {
        match self {
            ButtonKind::Prev => "prev",
            ButtonKind::Play => "play",
            ButtonKind::Next => "next",
        }
    }

    /// The picture that the control shows when it is created.
    pub fn icon(self) -> (r: Icon)
        ensures
            r == self.spec_icon(),
    {
        match self {
            ButtonKind::Prev => Icon::Prev,
            ButtonKind::Play => Icon::Play,
            ButtonKind::Next => Icon::Next,
        }
    }
}

/// A configured control with the picture it shows at present.
#[derive(Clone, Copy, Debug, PartialEq, Eq, Structural)]
pub struct Button {
    pub kind: ButtonKind,
    pub icon: Icon,
}

impl Button {
    /// The control of the given kind as it is first displayed.
    pub open spec fn spec_new(kind: ButtonKind) -> Button {
        Button { kind, icon: kind.spec_icon() }
    }

    /// The control of the given kind as it is first displayed.
    pub fn new(kind: ButtonKind) -> (r: Button)
        ensures
            r == Button::spec_new(kind),
    {
        Button { kind, icon: kind.icon() }
    }
}

/// One element of the widget's display.
#[derive(Debug, PartialEq, Eq)]
pub enum Element {
    /// The text, with the picture in front of it.
    Text { content: String, icon: Icon },
    /// A control, labelled with the identifier that a click on it reports.
    Button { name: ButtonKind, icon: Icon },
}

/// The mathematical value of an [`Element`].
pub ghost enum ElementView {
    Text { content: Seq<char>, icon: Icon },
    Button { name: ButtonKind, icon: Icon },
}

impl View for Element {
    type V = ElementView;

    open spec fn view(&self) -> ElementView {
        match self {
            Element::Text { content, icon } => ElementView::Text { content: content@, icon: *icon },
            Element::Button { name, icon } => ElementView::Button { name: *name, icon: *icon },
        }
    }
}

/// The mathematical values of a list of elements.
pub open spec fn element_views(elements: Seq<Element>) -> Seq<ElementView> {
    Seq::new(elements.len(), |i: int| elements[i]@)
}

/// The display element of a control.
pub open spec fn button_element(button: Button) -> ElementView {
    ElementView::Button { name: button.kind, icon: button.icon }
}

/// The display elements of a control that may be absent.
pub open spec fn button_elements(button: Option<Button>) -> Seq<ElementView> {
    match button {
        Some(b) => seq![button_element(b)],
        None => Seq::empty(),
    }
}

} // verus!
