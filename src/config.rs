use vstd::prelude::*;
use crate::text::same_text;
use vstd::string::*;

verus! {

/// A room the bot listens to: its identifier and a human-readable name.
#[derive(Clone, Debug)]
pub struct RoomConfig {
    pub room_id: String,
    pub name: String,
}

/// What the client needs to start: the bot's identity and where it keeps state.
#[derive(Clone, Debug)]
pub struct MatrixClientConfig {
    pub user_id: String,
    pub sqlite_store: String,
    pub sessions_file: String,
    pub image_store: String,
}

/// The whole configuration: registered rooms, client settings, env file.
#[derive(Clone, Debug)]
pub struct EgretConfig {
    pub rooms: Vec<RoomConfig>,
    pub client: MatrixClientConfig,
    pub env_file: String,
}

pub open spec fn default_env_file_spec() -> Seq<char> {
    seq!['.', 'e', 'n', 'v']
}

pub open spec fn default_sqlite_store_spec() -> Seq<char> {
    seq!['.', '/', 's', 'q', 'l', 'i', 't', 'e', '_', 's', 't', 'o', 'r', 'e']
}

/// The env file read when the configuration names none.
pub fn default_env_file() -> (r: String)
    ensures
        r@ == default_env_file_spec(),
{
    proof {
        reveal_strlit(".env");
    }
    String::from_str(".env")
}

/// The client's local store used when the configuration names none.
pub fn default_sqlite_store() -> (r: String)
    ensures
        r@ == default_sqlite_store_spec(),
{
    proof {
        reveal_strlit("./sqlite_store");
    }
    String::from_str("./sqlite_store")
}

/// The variables the environment must hold before the bot starts.
pub open spec fn required_env_spec() -> Seq<Seq<char>> {
    seq![
        "MATRIX_USER_ID"@,
        "MATRIX_PASSWORD"@,
        "BEEPER_RECOVERY_CODE"@,
        "TURSO_DB_URL"@,
        "TURSO_AUTH_TOKEN"@,
    ]
}

pub open spec fn views(v: Seq<String>) -> Seq<Seq<char>> {
    v.map_values(|s: String| s@)
}

/// The names of the variables the environment must hold.
pub fn required_env_vars() -> (r: Vec<String>)
    ensures
        views(r@) == required_env_spec(),
{
    proof {
        reveal_strlit("MATRIX_USER_ID");
        reveal_strlit("MATRIX_PASSWORD");
        reveal_strlit("BEEPER_RECOVERY_CODE");
        reveal_strlit("TURSO_DB_URL");
        reveal_strlit("TURSO_AUTH_TOKEN");
    }
    let mut r: Vec<String> = Vec::new();
    r.push(String::from_str("MATRIX_USER_ID"));
    r.push(String::from_str("MATRIX_PASSWORD"));
    r.push(String::from_str("BEEPER_RECOVERY_CODE"));
    r.push(String::from_str("TURSO_DB_URL"));
    r.push(String::from_str("TURSO_AUTH_TOKEN"));
    assert(views(r@) =~= required_env_spec());
    r
}

/// Whether `v` holds the text `s`.
pub fn contains_str(v: &Vec<String>, s: &str) -> (r: bool)
    ensures
        r == views(v@).contains(s@),
{
    let mut i: usize = 0;
    while i < v.len()
        invariant
            i <= v@.len(),
            forall|j: int| 0 <= j < i ==> v@[j]@ != s@,
        decreases v@.len() - i,
    {
        if same_text(v[i].as_str(), s) {
            assert(views(v@)[i as int] == s@);
            return true;
        }
        i = i + 1;
    }
    assert(!views(v@).contains(s@)) by {
        if views(v@).contains(s@) {
            let j = choose|j: int| 0 <= j < views(v@).len() && views(v@)[j] == s@;
            assert(v@[j]@ == s@);
        }
    }
    false
}

proof fn lemma_push_contains(s: Seq<Seq<char>>, x: Seq<char>, q: Seq<char>)
    ensures
        s.push(x).contains(q) <==> (s.contains(q) || q == x),
{
    if s.push(x).contains(q) {
        let j = choose|j: int| 0 <= j < s.push(x).len() && s.push(x)[j] == q;
        if j < s.len() {
            assert(s[j] == q);
        }
    }
    if s.contains(q) {
        let j = choose|j: int| 0 <= j < s.len() && s[j] == q;
        assert(s.push(x)[j] == q);
    }
    if q == x {
        assert(s.push(x)[s.len() as int] == q);
    }
}

impl EgretConfig {
    /// The required variables that `present`, the names the environment
    /// holds, lacks. Empty exactly when start-up may go on.
    ///
    /// The names are kept in a `Vec` and scanned: vstd's `HashSet`
    /// specification says nothing of membership for `String` keys, so a set
    /// difference over it would leave this contract unproved.
    pub fn missing_env_vars(present: &Vec<String>) -> (r: Vec<String>)
        ensures
            forall|k: Seq<char>| #[trigger]
                views(r@).contains(k) <==> (required_env_spec().contains(k) && !views(
                    present@,
                ).contains(k)),
    {
        let required = required_env_vars();
        let mut r: Vec<String> = Vec::new();
        let mut i: usize = 0;
        while i < required.len()
            invariant
                i <= required@.len(),
                views(required@) == required_env_spec(),
                forall|k: Seq<char>| #[trigger]
                    views(r@).contains(k) <==> (views(required@).subrange(0, i as int).contains(k)
                        && !views(present@).contains(k)),
            decreases required@.len() - i,
        {
            let k = required[i].clone();
            let missing = !contains_str(present, k.as_str());
            let ghost kv = k@;
            let ghost before = views(r@);
            let ghost done = views(required@).subrange(0, i as int);
            proof {
                assert(views(required@).subrange(0, i + 1) =~= done.push(kv));
            }
            if missing {
                proof {
                    assert(views(r@.push(k)) =~= before.push(kv));
                }
                r.push(k);
            }
            proof {
                assert forall|q: Seq<char>| #[trigger]
                    views(r@).contains(q) <==> (done.push(kv).contains(q) && !views(
                        present@,
                    ).contains(q)) by {
                    lemma_push_contains(done, kv, q);
                    lemma_push_contains(before, kv, q);
                }
            }
            i = i + 1;
        }
        assert(views(required@).subrange(0, required@.len() as int) =~= views(required@));
        r
    }
}

} // verus!
