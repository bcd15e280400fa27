use vstd::prelude::*;
use crate::matrix::{set_error_message, MatrixClient, MatrixClientView};
use crate::text::message;

verus! {

pub const BUNDLE_ID: &'static str = "com.iewnfod.matrix.tui";

pub const SAVE_FILE_NAME: &'static str = "saves.json";

/// The directories from the home directory down to the one that holds the
/// save file.
pub open spec fn save_path(macos: bool) -> Seq<Seq<char>> {
    if macos {
        seq!["Library"@, "Application Support"@, BUNDLE_ID@]
    } else {
        seq![".config"@, BUNDLE_ID@]
    }
}

/// The names of a path, one after the other.
pub open spec fn names(path: Seq<String>) -> Seq<Seq<char>> {
    Seq::new(path.len(), |i: int| path[i]@)
}

/// The path of the save directory below the home directory, name by name.
pub fn get_save_path(macos: bool) -> (path: Vec<String>)
    ensures
        names(path@) == save_path(macos),
{
    let mut path: Vec<String> = Vec::new();
    if macos {
        path.push(String::from_str("Library"));
        path.push(String::from_str("Application Support"));
    } else {
        path.push(String::from_str(".config"));
    }
    path.push(String::from_str(BUNDLE_ID));
    assert(names(path@) =~= save_path(macos));
    path
}

/// The path of the save file below the home directory, name by name.
pub fn get_save_file_path(macos: bool) -> (path: Vec<String>)
    ensures
        names(path@) == save_path(macos).push(SAVE_FILE_NAME@),
{
    let mut path = get_save_path(macos);
    let ghost above = path@;
    path.push(String::from_str(SAVE_FILE_NAME));
    assert(names(path@) =~= names(above).push(SAVE_FILE_NAME@));
    path
}

/// The session that is kept from one run to the next.
#[derive(Debug, Clone)]
pub struct Saving {
    pub token: String,
    pub username: String,
    pub server: String,
}

/// A saved session as plain values.
pub struct SavingView {
    pub token: Seq<char>,
    pub username: Seq<char>,
    pub server: Seq<char>,
}

impl View for Saving {
    type V = SavingView;

    open spec fn view(&self) -> SavingView {
        SavingView { token: self.token@, username: self.username@, server: self.server@ }
    }
}

impl SavingView {
    /// The session of a first run: nothing is known.
    pub open spec fn empty() -> SavingView {
        SavingView { token: Seq::empty(), username: Seq::empty(), server: Seq::empty() }
    }
}

impl Default for Saving {
    fn default() -> (saving: Saving)
        ensures
            saving@ == SavingView::empty(),
    {
        Saving { token: String::new(), username: String::new(), server: String::new() }
    }
}

impl Saving {
    /// The session to start with: the one that was read from the save file,
    /// or an empty one where none was.
    pub fn new(saved: Option<Saving>) -> (saving: Saving)
        ensures
            match saved {
                Some(read) => saving == read,
                None => saving@ == SavingView::empty(),
            },
    {
        match saved {
            Some(read) => read,
            None => Saving::default(),
        }
    }

    /// What reading the save file came to. `read` is `None` where there is no
    /// save file, else the session in it or the reason why it could not be
    /// read. A file that cannot be read is reported in the status and counts
    /// as no session.
    pub fn from_saves(client: &mut MatrixClient, read: Option<Result<Saving, String>>) -> (saved:
        Option<Saving>)
        ensures
            match read {
                Some(Ok(saving)) => saved == Some(saving) && final(client)@ == old(client)@,
                Some(Err(reason)) => saved is None && final(client)@ == (MatrixClientView {
                    error_message: "Failed to load savings: "@ + reason@,
                    ..old(client)@
                }),
                None => saved is None && final(client)@ == old(client)@,
            },
    {
        match read {
            Some(Ok(saving)) => Some(saving),
            Some(Err(reason)) => {
                let error = message("Failed to load savings: ", reason.as_str());
                set_error_message(client, error.as_str());
                None
            },
            None => None,
        }
    }
}

} // verus!
