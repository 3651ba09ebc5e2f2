//! The failures that the widget reports to its host.

use vstd::prelude::*;
use vstd::string::*;

verus! {

/// A failure of the widget's construction or of a click.
#[derive(Debug, PartialEq, Eq)]
pub enum MusicError {
    /// The configuration names a button that does not exist.
    UnknownButton(String),
    /// The method call for a click could not be put together.
    CallNotCreated,
    /// The method call for a click could not be sent.
    CallNotSent,
}

/// The mathematical value of a [`MusicError`].
pub ghost enum MusicErrorView {
    UnknownButton(Seq<char>),
    CallNotCreated,
    CallNotSent,
}

impl View for MusicError {
    type V = MusicErrorView;

    open spec fn view(&self) -> MusicErrorView {
        match self {
            MusicError::UnknownButton(name) => MusicErrorView::UnknownButton(name@),
            MusicError::CallNotCreated => MusicErrorView::CallNotCreated,
            MusicError::CallNotSent => MusicErrorView::CallNotSent,
        }
    }
}

impl MusicErrorView {
    /// The failure in words.
    pub open spec fn message(self) -> Seq<char> {
        match self {
            MusicErrorView::UnknownButton(name) => "unknown music button identifier: '"@ + name
                + "'"@,
            MusicErrorView::CallNotCreated => "failed to create D-Bus method call"@,
            MusicErrorView::CallNotSent => "failed to call method via D-Bus"@,
        }
    }
}

impl MusicError {
    /// The failure in words.
    pub fn message(&self) -> (r: String)
        ensures
            r@ == self@.message(),
    {
        match self {
            MusicError::UnknownButton(name) => {
                let mut text = String::from_str("unknown music button identifier: '");
                text.append(name.as_str());
                text.append("'");
                text
            },
            MusicError::CallNotCreated => String::from_str("failed to create D-Bus method call"),
            MusicError::CallNotSent => String::from_str("failed to call method via D-Bus"),
        }
    }
}

/// How the sending of a click's method call ended.
#[derive(Clone, Copy, Debug, PartialEq, Eq, Structural)]
pub enum Delivery {
    Sent,
    NotCreated,
    NotSent,
}

/// What a click reports to the host once its call has been dealt with: a
/// call that could not be made or sent is a failure of the click.
pub fn click_result(delivery: Delivery) -> (r: Result<(), MusicError>)
    ensures
        match delivery {
            Delivery::Sent => r is Ok,
            Delivery::NotCreated => r matches Err(e) && e@ == MusicErrorView::CallNotCreated,
            Delivery::NotSent => r matches Err(e) && e@ == MusicErrorView::CallNotSent,
        },
{
    match delivery {
        Delivery::Sent => Ok(()),
        Delivery::NotCreated => Err(MusicError::CallNotCreated),
        Delivery::NotSent => Err(MusicError::CallNotSent),
    }
}

} // verus!
