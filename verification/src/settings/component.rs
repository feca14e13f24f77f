//! The interface of a settings component.
use vstd::prelude::*;

verus! {

/// What the USB "READ_CONFIG" command answers for a component.
pub enum DirectRead {
    /// This text.
    Text(String),
    /// The contents of the file at this path, or nothing when it cannot be
    /// read.
    File(String),
}

/// The answer to a direct read, as character sequences.
pub enum DirectReadView {
    Text(Seq<char>),
    File(Seq<char>),
}

impl View for DirectRead {
    type V = DirectReadView;

    open spec fn view(&self) -> DirectReadView {
        match self {
            DirectRead::Text(s) => DirectReadView::Text(s@),
            DirectRead::File(p) => DirectReadView::File(p@),
        }
    }
}

pub trait SettingsComponent {
    /// Whether the component answers a direct read.
    spec fn readable(&self) -> bool;

    /// The answer to a direct read with the given arguments.
    spec fn spec_direct_read(&self, args: Seq<Seq<char>>) -> DirectReadView;

    /// The answer to a direct read with the command's arguments.
    fn direct_read(&self, args: &Vec<String>) -> (r: DirectRead)
        requires
            self.readable(),
        ensures
            r@ == self.spec_direct_read(args@.map_values(|a: String| a@)),
    ;
}

} // verus!
