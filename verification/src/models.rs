//! The record that is shown for one message of the inbox.

use vstd::prelude::*;

verus! {

/// One message as the inbox list shows it.
///
/// `id` is the sequence number that the server gave the message for the current
/// session. `date` is kept as the server sent it.
#[derive(Debug, Clone)]
pub struct EmailPreview {
    pub id: u32,
    pub sender: String,
    pub subject: String,
    pub preview: String,
    pub date: String,
}

/// The mathematical value of an [`EmailPreview`].
pub ghost struct PreviewView {
    pub id: u32,
    pub sender: Seq<char>,
    pub subject: Seq<char>,
    pub preview: Seq<char>,
    pub date: Seq<char>,
}

impl View for EmailPreview {
    type V = PreviewView;

    open spec fn view(&self) -> PreviewView {
        PreviewView {
            id: self.id,
            sender: self.sender@,
            subject: self.subject@,
            preview: self.preview@,
            date: self.date@,
        }
    }
}

/// The values of a list of previews, in the same order.
pub open spec fn preview_views(previews: Seq<EmailPreview>) -> Seq<PreviewView> {
    Seq::new(previews.len(), |i: int| previews[i]@)
}

} // verus!
