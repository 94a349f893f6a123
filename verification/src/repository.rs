use vstd::prelude::*;

verus! {

/// One stored chat message.
#[derive(Debug, Clone)]
pub struct ChatMessageModel {
    pub id: String,
    pub meeting_id: String,
    /// `"user"` or `"assistant"`.
    pub role: String,
    pub content: String,
    /// RFC 3339 timestamp.
    pub created_at: String,
}

/// The mathematical value of a [`ChatMessageModel`].
pub struct MessageView {
    pub id: Seq<char>,
    pub meeting_id: Seq<char>,
    pub role: Seq<char>,
    pub content: Seq<char>,
    pub created_at: Seq<char>,
}

impl View for ChatMessageModel {
    type V = MessageView;

    open spec fn view(&self) -> MessageView {
        MessageView {
            id: self.id@,
            meeting_id: self.meeting_id@,
            role: self.role@,
            content: self.content@,
            created_at: self.created_at@,
        }
    }
}

/// Chat messages kept in the `chat_messages` table.
pub struct ChatMessagesRepository;

/// What starts the id of every chat message.
pub const MESSAGE_ID_PREFIX: &'static str = "chatmsg-";

/// Stores one message.
pub const INSERT_MESSAGE_SQL: &'static str = "INSERT INTO chat_messages (id, meeting_id, role, content, created_at)
             VALUES (?, ?, ?, ?, ?)";

/// The messages of one meeting, oldest first (ties broken by id).
pub const SELECT_MEETING_MESSAGES_SQL: &'static str = "SELECT id, meeting_id, role, content, created_at
             FROM chat_messages
             WHERE meeting_id = ?
             ORDER BY created_at ASC, id ASC";

/// Replaces the content of one message.
pub const UPDATE_MESSAGE_CONTENT_SQL: &'static str = "UPDATE chat_messages SET content = ? WHERE id = ?";

/// Deletes one message.
pub const DELETE_MESSAGE_SQL: &'static str = "DELETE FROM chat_messages WHERE id = ?";

/// Deletes every message of one meeting.
pub const DELETE_MEETING_MESSAGES_SQL: &'static str = "DELETE FROM chat_messages WHERE meeting_id = ?";

/// Moves every message of one meeting to another meeting id.
pub const REASSIGN_MEETING_SQL: &'static str = "UPDATE chat_messages SET meeting_id = ? WHERE meeting_id = ?";

/// A decimal digit.
pub open spec fn is_digit(c: char) -> bool {
    '0' as u32 <= c as u32 && c as u32 <= '9' as u32
}

/// A lower-case hexadecimal digit.
pub open spec fn is_lower_hex(c: char) -> bool {
    is_digit(c) || ('a' as u32 <= c as u32 && c as u32 <= 'f' as u32)
}

/// The hyphenated lower-case text of a random (version 4, RFC 4122 variant)
/// UUID: five groups of 8, 4, 4, 4 and 12 hex digits, the third group
/// starting with `4` and the fourth with one of `8`, `9`, `a`, `b`.
pub open spec fn uuid_v4_text(t: Seq<char>) -> bool {
    &&& t.len() == 36
    &&& forall|i: int|
        0 <= i < 36 ==> if i == 8 || i == 13 || i == 18 || i == 23 {
            #[trigger] t[i] == '-'
        } else {
            is_lower_hex(t[i])
        }
    &&& t[14] == '4'
    &&& (t[19] == '8' || t[19] == '9' || t[19] == 'a' || t[19] == 'b')
}

/// `Uuid::new_v4().to_string()`: a random version 4 UUID in its hyphenated
/// lower-case form. Which UUID is left unsaid: it is random.
#[verifier::external_body]
fn random_uuid_text() -> (r: String)
    ensures
        uuid_v4_text(r@),
{
    uuid::Uuid::new_v4().to_string()
}

/// How every timestamp of a new message ends: its UTC offset.
pub const UTC_OFFSET_SUFFIX: &'static str = "+00:00";

/// The fraction of a second as `to_rfc3339` writes it: none, or a dot and
/// 3, 6 or 9 digits.
pub open spec fn second_fraction(f: Seq<char>) -> bool {
    f.len() == 0 || (f[0] == '.' && (f.len() == 4 || f.len() == 7 || f.len() == 10) && forall|
        i: int,
    | 1 <= i < f.len() ==> is_digit(#[trigger] f[i]))
}

/// The text of a UTC time as `DateTime::<Utc>::to_rfc3339` writes it: for a
/// year from 0 to 9999, `YYYY-MM-DDTHH:MM:SS`, an optional fraction of a
/// second and the offset `+00:00`; other years start with their sign.
pub open spec fn utc_rfc3339_text(t: Seq<char>) -> bool {
    &&& t.len() >= 25
    &&& t.subrange(t.len() - 6, t.len() as int) == UTC_OFFSET_SUFFIX@
    &&& (t[0] == '+' || t[0] == '-' || {
        &&& forall|i: int|
            0 <= i < 19 && i != 4 && i != 7 && i != 10 && i != 13 && i != 16 ==> is_digit(
                #[trigger] t[i],
            )
        &&& t[4] == '-' && t[7] == '-' && t[10] == 'T' && t[13] == ':' && t[16] == ':'
        &&& second_fraction(t.subrange(19, t.len() - 6))
    })
}

/// `chrono::Utc::now().to_rfc3339()`: the current time as an RFC 3339
/// timestamp with the zero offset written `+00:00`. Which time is left
/// unsaid: it depends on the clock.
#[verifier::external_body]
fn now_rfc3339() -> (r: String)
    ensures
        utc_rfc3339_text(r@),
{
    chrono::Utc::now().to_rfc3339()
}

impl ChatMessagesRepository {
    /// The row of a new message: its id is the prefix followed by
    /// `unique_suffix`, and it carries the other fields as given.
    pub fn message_model(
        unique_suffix: &str,
        meeting_id: &str,
        role: &str,
        content: &str,
        created_at: &str,
    ) -> (r: ChatMessageModel)
        ensures
            r@.id == MESSAGE_ID_PREFIX@ + unique_suffix@,
            r@.meeting_id == meeting_id@,
            r@.role == role@,
            r@.content == content@,
            r@.created_at == created_at@,
    {
        let mut id = String::from_str(MESSAGE_ID_PREFIX);
        id.append(unique_suffix);
        ChatMessageModel {
            id,
            meeting_id: String::from_str(meeting_id),
            role: String::from_str(role),
            content: String::from_str(content),
            created_at: String::from_str(created_at),
        }
    }

    /// The row to insert for a new message: a fresh random id with the
    /// message prefix, the current UTC time, and the fields as given.
    pub fn new_message(meeting_id: &str, role: &str, content: &str) -> (r: ChatMessageModel)
        ensures
            r@.id.subrange(0, MESSAGE_ID_PREFIX@.len() as int) == MESSAGE_ID_PREFIX@,
            uuid_v4_text(r@.id.skip(MESSAGE_ID_PREFIX@.len() as int)),
            r@.meeting_id == meeting_id@,
            r@.role == role@,
            r@.content == content@,
            utc_rfc3339_text(r@.created_at),
    {
        let suffix = random_uuid_text();
        let created_at = now_rfc3339();
        let r = Self::message_model(suffix.as_str(), meeting_id, role, content, created_at.as_str());
        assert(r@.id.subrange(0, MESSAGE_ID_PREFIX@.len() as int) =~= MESSAGE_ID_PREFIX@);
        assert(r@.id.skip(MESSAGE_ID_PREFIX@.len() as int) =~= suffix@);
        r
    }
}

} // verus!
