//! Failures that a plugin reports to its host.

use vstd::prelude::*;

verus! {

/// The class of a failure that the host tells apart.
#[derive(Debug, Clone, Copy, PartialEq, Eq, Structural)]
pub enum ErrorClass {
    /// The plugin was not permitted to do what was asked.
    PermissionDenied,
}

/// Why a plugin refused to load or to answer.
#[derive(Debug, PartialEq, Eq)]
pub enum PluginError {
    /// Retrying cannot help.
    Permanent(String),
    /// Retrying may help.
    Transient(String),
    /// A failure that carries its class, and its own name within it, to the host.
    WithSubclass { class: ErrorClass, subclass: String, message: String },
}

/// What a [`PluginError`] says.
pub enum ErrorModel {
    Permanent(Seq<char>),
    Transient(Seq<char>),
    WithSubclass { class: ErrorClass, subclass: Seq<char>, message: Seq<char> },
}

impl View for PluginError {
    type V = ErrorModel;

    open spec fn view(&self) -> ErrorModel {
        match *self {
            PluginError::Permanent(m) => ErrorModel::Permanent(m@),
            PluginError::Transient(m) => ErrorModel::Transient(m@),
            PluginError::WithSubclass { class, subclass, message } => ErrorModel::WithSubclass {
                class,
                subclass: subclass@,
                message: message@,
            },
        }
    }
}

/// A permanent failure with a fixed text.
pub fn permanent(message: &str) -> (r: PluginError)
    ensures
        r@ == ErrorModel::Permanent(message@),
{
    PluginError::Permanent(message.to_owned())
}

/// A permanent failure whose text is `head` followed by `tail`.
pub fn permanent_with(head: &str, tail: &str) -> (r: PluginError)
    ensures
        r@ == ErrorModel::Permanent(head@ + tail@),
{
    let mut m = head.to_owned();
    m.append(tail);
    PluginError::Permanent(m)
}

} // verus!
