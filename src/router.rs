use base64::Engine;
use vstd::prelude::*;
use crate::text::{has_prefix, starts_with};
use vstd::string::*;

verus! {

/// The URL-safe, padded base64 text of the UTF-8 bytes of `s`.
pub uninterp spec fn base64_url_of(s: Seq<char>) -> Seq<char>;

/// The characters of URL-safe base64 text: letters, digits, `-`, `_` and the
/// padding `=`.
pub open spec fn is_url_safe_char(c: char) -> bool {
    ('A' <= c && c <= 'Z') || ('a' <= c && c <= 'z') || ('0' <= c && c <= '9') || c == '-' || c
        == '_' || c == '='
}

/// Relies on base64's `Engine::encode` with the `URL_SAFE` engine: the padded
/// encoding of the UTF-8 bytes of `s` in the alphabet `A-Z a-z 0-9 - _`, a
/// function of those bytes alone. It panics only when the output length
/// overflows `usize`, which no `str` that fits in memory reaches.
#[verifier::external_body]
fn encode_base64(s: &str) -> (r: String)
    ensures
        r@ == base64_url_of(s@),
        forall|i: int| 0 <= i < r@.len() ==> is_url_safe_char(#[trigger] r@[i]),
{
    base64::prelude::BASE64_URL_SAFE.encode(s)
}

/// Relies on chrono's `Local::now` and `DateTime::to_rfc3339`: the current
/// local time as RFC 3339 text. Nothing is stated of it: it is the time.
#[verifier::external_body]
fn local_timestamp() -> (r: String) {
    chrono::Local::now().to_rfc3339()
}

/// The content of an inbound room message, by kind.
#[derive(Clone, Debug)]
pub enum MessageBody {
    Text(String),
    Image { mimetype: Option<String>, filename: Option<String> },
    Other,
}

/// An inbound room message event, as the router sees it.
#[derive(Clone, Debug)]
pub struct InboundMessage {
    pub event_id: String,
    pub sender: String,
    /// The event this one replies to, if it is a reply.
    pub reply_to: Option<String>,
    pub body: MessageBody,
}

/// Which handler an inbound message goes to.
#[derive(Clone, Debug)]
pub enum Route {
    /// A reply: the referenced event is to be resolved and logged.
    ReplyTo(String),
    /// A bot command: a reply is sent back.
    Command,
    /// Plain text without the command prefix: logged only.
    PlainText,
    /// An image: the media is fetched and stored.
    Image,
    Ignored,
}

/// Why handling one event stopped. Such a fault ends that event's handling
/// only.
#[derive(PartialEq, Eq, Structural, Clone, Copy, Debug)]
pub enum EventFault {
    RoomNotFound,
    ReplyTargetUnresolved,
    NotAnImage,
    MissingMimeType,
    MissingFilename,
}

pub open spec fn command_prefix() -> Seq<char> {
    seq!['@', 'e', 'g', 'r', 'e', 't']
}

pub open spec fn pong_text() -> Seq<char> {
    seq!['[', 'b', 'o', 't', ']', ' ', 'p', 'o', 'n', 'g']
}

pub open spec fn is_command_spec(body: Seq<char>) -> bool {
    has_prefix(body, command_prefix())
}

/// Classification, in priority order: reply, command, plain text, image.
pub open spec fn route_of(m: InboundMessage) -> Route {
    match m.reply_to {
        Some(t) => Route::ReplyTo(t),
        None => match m.body {
            MessageBody::Text(b) => if is_command_spec(b@) {
                Route::Command
            } else {
                Route::PlainText
            },
            MessageBody::Image { .. } => Route::Image,
            MessageBody::Other => Route::Ignored,
        },
    }
}

/// Whether a text body is a bot command: it begins with `@egret`.
pub fn is_command(body: &str) -> (r: bool)
    ensures
        r == is_command_spec(body@),
{
    proof {
        reveal_strlit("@egret");
        assert("@egret"@ =~= command_prefix());
    }
    starts_with(body, "@egret")
}

/// Picks the handler for an inbound message.
pub fn classify(m: &InboundMessage) -> (r: Route)
    ensures
        r == route_of(*m),
{
    match &m.reply_to {
        Some(t) => Route::ReplyTo(t.clone()),
        None => match &m.body {
            MessageBody::Text(b) => if is_command(b.as_str()) {
                Route::Command
            } else {
                Route::PlainText
            },
            MessageBody::Image { .. } => Route::Image,
            MessageBody::Other => Route::Ignored,
        },
    }
}

/// A reply to send back into the room a command came from.
#[derive(Clone, Debug)]
pub struct OutgoingReply {
    /// The event that triggered the reply.
    pub in_reply_to: String,
    pub to_sender: String,
    pub body: String,
}

/// The answer to a bot command: `[bot] pong`, tagged as a reply to the
/// triggering event. Nothing for any other message.
pub fn command_reply(m: &InboundMessage) -> (r: Option<OutgoingReply>)
    ensures
        r is Some <==> route_of(*m) is Command,
        match r {
            Some(o) => o.in_reply_to@ == m.event_id@ && o.to_sender@ == m.sender@ && o.body@
                == pong_text(),
            None => true,
        },
{
    match classify(m) {
        Route::Command => {
            proof {
                reveal_strlit("[bot] pong");
                assert("[bot] pong"@ =~= pong_text());
            }
            Some(
                OutgoingReply {
                    in_reply_to: String::from_str(m.event_id.as_str()),
                    to_sender: String::from_str(m.sender.as_str()),
                    body: String::from_str("[bot] pong"),
                },
            )
        },
        _ => None,
    }
}

/// The event a reply refers to, once resolved: who sent it and what it said.
#[derive(Clone, Debug)]
pub struct RepliedEvent {
    pub sender: String,
    pub body: String,
}

/// Decides the outcome of handling a reply, from whether the room was found
/// and what resolving the referenced event gave. A fault ends this event's
/// handling only.
pub fn reply_outcome(room_found: bool, resolved: Option<RepliedEvent>) -> (r: Result<
    RepliedEvent,
    EventFault,
>)
    ensures
        !room_found ==> r == Err::<RepliedEvent, EventFault>(EventFault::RoomNotFound),
        room_found ==> match resolved {
            Some(e) => r == Ok::<RepliedEvent, EventFault>(e),
            None => r == Err::<RepliedEvent, EventFault>(EventFault::ReplyTargetUnresolved),
        },
{
    if !room_found {
        Err(EventFault::RoomNotFound)
    } else {
        match resolved {
            Some(e) => Ok(e),
            None => Err(EventFault::ReplyTargetUnresolved),
        }
    }
}

/// Where and how an inbound image is stored.
#[derive(Clone, Debug)]
pub struct ImagePlan {
    /// The stored file's name: encoded origin, a dash, the image's own file
    /// name with each `/` and NUL made `_`. It holds neither character.
    pub file_name: String,
    /// The media directory joined with `file_name`.
    pub path: String,
    pub mimetype: String,
}

/// The text that identifies an image's origin: room, sender, event and time,
/// joined by dashes.
pub open spec fn artifact_ident(
    room: Seq<char>,
    sender: Seq<char>,
    event: Seq<char>,
    timestamp: Seq<char>,
) -> Seq<char> {
    room + seq!['-'] + sender + seq!['-'] + event + seq!['-'] + timestamp
}

pub open spec fn artifact_name(encoded_ident: Seq<char>, filename: Seq<char>) -> Seq<char> {
    encoded_ident + seq!['-'] + filename
}

pub open spec fn join_path(dir: Seq<char>, name: Seq<char>) -> Seq<char> {
    dir + seq!['/'] + name
}

/// What planning the storage of `m` in room `room` at time `timestamp` gives.
pub open spec fn image_plan_is(
    r: Result<ImagePlan, EventFault>,
    media_dir: Seq<char>,
    room: Seq<char>,
    m: InboundMessage,
    timestamp: Seq<char>,
) -> bool {
    match m.body {
        MessageBody::Image { mimetype, filename } => match mimetype {
            None => r == Err::<ImagePlan, EventFault>(EventFault::MissingMimeType),
            Some(mt) => match filename {
                None => r == Err::<ImagePlan, EventFault>(EventFault::MissingFilename),
                Some(f) => match r {
                    Ok(p) => p.mimetype@ == mt@ && p.file_name@ == artifact_name(
                        base64_url_of(artifact_ident(room, m.sender@, m.event_id@, timestamp)),
                        safe_file_name_spec(f@),
                    ) && !p.file_name@.contains('/') && !p.file_name@.contains('\0') && p.path@
                        == join_path(media_dir, p.file_name@),
                    Err(_) => false,
                },
            },
        },
        _ => r == Err::<ImagePlan, EventFault>(EventFault::NotAnImage),
    }
}

/// A character of a stored file's name: a path separator or NUL becomes `_`.
pub open spec fn safe_char(c: char) -> char {
    if c == '/' || c == '\0' {
        '_'
    } else {
        c
    }
}

/// A file name made safe to place directly in a directory.
pub open spec fn safe_file_name_spec(s: Seq<char>) -> Seq<char> {
    s.map_values(|c: char| safe_char(c))
}

/// Replaces each `/` and NUL in a sender-chosen file name by `_`, so that the
/// name stays one path component.
pub fn safe_file_name(s: &str) -> (r: String)
    ensures
        r@ == safe_file_name_spec(s@),
{
    proof {
        reveal_strlit("");
    }
    let n = s.unicode_len();
    let mut r = String::from_str("");
    let mut start: usize = 0;
    let mut i: usize = 0;
    while i < n
        invariant
            n == s@.len(),
            start <= i <= n,
            r@ + s@.subrange(start as int, i as int) == safe_file_name_spec(s@.subrange(0, i as int)),
        decreases n - i,
    {
        let c = s.get_char(i);
        let ghost before = r@ + s@.subrange(start as int, i as int);
        proof {
            assert(safe_file_name_spec(s@.subrange(0, i + 1)) =~= safe_file_name_spec(
                s@.subrange(0, i as int),
            ).push(safe_char(c)));
        }
        if c == '/' || c == '\0' {
            let seg = s.substring_char(start, i);
            r.append(seg);
            r.append("_");
            start = i + 1;
            proof {
                reveal_strlit("_");
                assert("_"@ =~= seq!['_']);
                assert(s@.subrange(start as int, i + 1) =~= Seq::<char>::empty());
                assert(r@ + s@.subrange(start as int, i + 1) =~= before.push('_'));
            }
        } else {
            proof {
                assert(r@ + s@.subrange(start as int, i + 1) =~= before.push(c));
            }
        }
        i = i + 1;
    }
    let seg = s.substring_char(start, n);
    r.append(seg);
    assert(s@.subrange(0, n as int) =~= s@);
    r
}

/// Builds the text that identifies an image's origin.
pub fn artifact_ident_text(room: &str, sender: &str, event: &str, timestamp: &str) -> (r: String)
    ensures
        r@ == artifact_ident(room@, sender@, event@, timestamp@),
{
    proof {
        reveal_strlit("-");
    }
    let mut r = String::from_str(room);
    r.append("-");
    r.append(sender);
    r.append("-");
    r.append(event);
    r.append("-");
    r.append(timestamp);
    r
}

/// The stored file's name from the encoded origin and the image's own file name.
pub fn artifact_file_name(encoded_ident: &str, filename: &str) -> (r: String)
    ensures
        r@ == artifact_name(encoded_ident@, filename@),
{
    proof {
        reveal_strlit("-");
    }
    let mut r = String::from_str(encoded_ident);
    r.append("-");
    r.append(filename);
    r
}

/// `name` under the directory `dir`.
pub fn path_in_dir(dir: &str, name: &str) -> (r: String)
    ensures
        r@ == join_path(dir@, name@),
{
    proof {
        reveal_strlit("/");
    }
    let mut r = String::from_str(dir);
    r.append("/");
    r.append(name);
    r
}

/// Plans where an image message is stored, given the time of handling. An
/// image without a MIME type or without a file name is a fault of this event.
pub fn plan_image_at(media_dir: &str, room_id: &str, m: &InboundMessage, timestamp: &str) -> (r:
    Result<ImagePlan, EventFault>)
    ensures
        image_plan_is(r, media_dir@, room_id@, *m, timestamp@),
{
    match &m.body {
        MessageBody::Image { mimetype, filename } => match mimetype {
            None => Err(EventFault::MissingMimeType),
            Some(mt) => match filename {
                None => Err(EventFault::MissingFilename),
                Some(f) => {
                    let ident = artifact_ident_text(
                        room_id,
                        m.sender.as_str(),
                        m.event_id.as_str(),
                        timestamp,
                    );
                    let encoded = encode_base64(ident.as_str());
                    let safe = safe_file_name(f.as_str());
                    let file_name = artifact_file_name(encoded.as_str(), safe.as_str());
                    proof {
                        assert forall|i: int| 0 <= i < file_name@.len() implies #[trigger] file_name@[i]
                            != '/' && file_name@[i] != '\0' by {
                            if i < encoded@.len() {
                                assert(file_name@[i] == encoded@[i]);
                                assert(is_url_safe_char(encoded@[i]));
                            } else if i > encoded@.len() {
                                assert(file_name@[i] == safe@[i - encoded@.len() - 1]);
                            }
                        }
                    }
                    let path = path_in_dir(media_dir, file_name.as_str());
                    Ok(ImagePlan { file_name, path, mimetype: String::from_str(mt.as_str()) })
                },
            },
        },
        _ => Err(EventFault::NotAnImage),
    }
}

/// Plans where an image message is stored, stamped with the current local
/// time.
pub fn plan_image(media_dir: &str, room_id: &str, m: &InboundMessage) -> (r: Result<
    ImagePlan,
    EventFault,
>)
    ensures
        exists|t: Seq<char>| image_plan_is(r, media_dir@, room_id@, *m, t),
{
    let timestamp = local_timestamp();
    let r = plan_image_at(media_dir, room_id, m, timestamp.as_str());
    assert(image_plan_is(r, media_dir@, room_id@, *m, timestamp@));
    r
}

/// Decides the outcome of handling an image, from whether the room was found
/// and the storage plan. A room that is not found is a fault of this event.
pub fn image_outcome(room_found: bool, plan: Result<ImagePlan, EventFault>) -> (r: Result<
    ImagePlan,
    EventFault,
>)
    ensures
        !room_found ==> r == Err::<ImagePlan, EventFault>(EventFault::RoomNotFound),
        room_found ==> r == plan,
{
    if !room_found {
        Err(EventFault::RoomNotFound)
    } else {
        plan
    }
}

} // verus!
