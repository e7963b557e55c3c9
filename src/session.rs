use vstd::prelude::*;
use vstd::string::*;

verus! {

/// The credentials needed to resume a session without the password.
#[derive(Clone, Debug)]
pub struct Session {
    pub access_token: String,
    pub refresh_token: Option<String>,
    pub user_id: String,
    pub device_id: String,
}

pub struct SessionView {
    pub access_token: Seq<char>,
    pub refresh_token: Option<Seq<char>>,
    pub user_id: Seq<char>,
    pub device_id: Seq<char>,
}

pub open spec fn opt_view(o: Option<String>) -> Option<Seq<char>> {
    match o {
        Some(s) => Some(s@),
        None => None,
    }
}

impl View for Session {
    type V = SessionView;

    open spec fn view(&self) -> SessionView {
        SessionView {
            access_token: self.access_token@,
            refresh_token: opt_view(self.refresh_token),
            user_id: self.user_id@,
            device_id: self.device_id@,
        }
    }
}

impl Session {
    pub fn new(
        access_token: String,
        refresh_token: Option<String>,
        user_id: String,
        device_id: String,
    ) -> (r: Session)
        ensures
            r.access_token == access_token,
            r.refresh_token == refresh_token,
            r.user_id == user_id,
            r.device_id == device_id,
    {
        Session { access_token, refresh_token, user_id, device_id }
    }
}

/// What reading the session file gave.
pub enum LoadOutcome {
    Found(Session),
    NotFound,
    Corrupt,
}

/// Classifies a read of the session file: `file_exists` tells whether it was
/// there, `decoded` what its contents decoded to, if they decoded at all.
/// An absent file is `NotFound`, whatever else is passed.
pub fn load_outcome(file_exists: bool, decoded: Option<Session>) -> (r: LoadOutcome)
    ensures
        !file_exists ==> r is NotFound,
        file_exists ==> match decoded {
            Some(s) => r == LoadOutcome::Found(s),
            None => r is Corrupt,
        },
{
    if !file_exists {
        LoadOutcome::NotFound
    } else {
        match decoded {
            Some(s) => LoadOutcome::Found(s),
            None => LoadOutcome::Corrupt,
        }
    }
}

pub open spec fn temp_suffix() -> Seq<char> {
    seq!['.', 't', 'm', 'p']
}

/// The file a save writes first, before renaming it over `path`, so that a
/// failed write never leaves a partial session file behind.
pub fn temp_path_for(path: &str) -> (r: String)
    ensures
        r@ == path@ + temp_suffix(),
{
    proof {
        reveal_strlit(".tmp");
    }
    let mut r = String::from_str(path);
    r.append(".tmp");
    r
}

} // verus!
