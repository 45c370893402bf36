//! Text files handed to the editor, with the media type that their name
//! suggests.

use vstd::prelude::*;

verus! {

/// The media type that `mime_guess` finds for a file name by its
/// extension, `text/plain` where it knows none.
pub uninterp spec fn guessed_mime(filename: Seq<char>) -> Seq<char>;

/// The content of a text file and its media type.
pub struct FileResponse {
    pub content: String,
    pub mime_type: String,
}

/// Calls `mime_guess::from_path`, takes `first_or_text_plain` of the
/// guess and writes it out. Claimed: the text depends on the file name
/// alone; no disk is read.
#[verifier::external_body]
fn mime_text(filename: &str) -> (mime: String)
    ensures
        mime@ == guessed_mime(filename@),
{
    mime_guess::from_path(filename).first_or_text_plain().to_string()
}

/// The answer for a text file that was read: its content as it is, and
/// the media type that its name suggests.
pub fn load_txt_file(filename: &str, content: String) -> (response: FileResponse)
    ensures
        response.content == content,
        response.mime_type@ == guessed_mime(filename@),
{
    FileResponse { content, mime_type: mime_text(filename) }
}

} // verus!
