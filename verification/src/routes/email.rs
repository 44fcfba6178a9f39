use vstd::prelude::*;
use vstd::string::StringExecFns;

use super::route_structs::DeviceFoundRequest;

verus! {

/// Width of the lock-screen image, in pixels.
pub const PHONE_WIDTH: u32 = 375;

/// Height of the lock-screen image, in pixels.
pub const PHONE_HEIGHT: u32 = 812;

/// Largest side of the QR code on the lock-screen image, in pixels.
pub const QR_CODE_MAX_SIZE: u32 = 355;

/// Top of the line of text on the lock-screen image.
pub const TEXT_Y: u32 = 200;

/// Top of the QR code on the lock-screen image, just below the text.
pub const QR_CODE_Y: u32 = TEXT_Y + 20;

/// The line of text above the QR code.
pub const LOCK_SCREEN_TEXT: &'static str = "If found scan this QR code to help return this device";

/// Content id under which the lock-screen image is attached to the welcome e-mail.
pub const QR_CODE_CONTENT_ID: &'static str = "qrcodeimg";

/// Media type of the lock-screen image.
pub const QR_CODE_MEDIA_TYPE: &'static str = "image/png";

/// Start of the address of a device's page.
pub const DEVICE_URL_PREFIX: &'static str = "http://localhost:8000/device/";

/// Start of the service's mailbox, before its address.
pub const SENDER_MAILBOX_START: &'static str = "ifoundthephone <";

pub const NEW_USER_SUBJECT: &'static str = "Welcome to IFoundThePhone!";

pub const DEVICE_OWNER_SUBJECT: &'static str = "Your device was found!";

/// Shown in place of a contact detail the finder left out.
pub const NOT_PROVIDED: &'static str = "<b>Not Provided</b>";

/// The welcome e-mail's text before the user id.
pub const NEW_USER_BODY_START: &'static str = "<h1 style=\"color:black;\">Thanks for signing up for IFoundThePhone!</h1>
        <p style=\"color:black;\">Your device id is <b>";

/// The welcome e-mail's text after the user id.
pub const NEW_USER_BODY_END: &'static str = "</b>. This is the code people will type in when they find your device.</p>
        <p style=\"color:black;\">In order to allow people to return your device to you, make sure you put your device id somewhere on your phone. </p>
        <p style=\"color:black;\">You may also use the image below as your lock screen which contains a QR code that links to the page to report your device.</p>
        <img src=\"cid:qrcodeimg\" alt=\"use this image as your lock screen background\" width=\"375\" height=\"812\">
    ";

/// The found-device e-mail's text before the finder's e-mail address.
pub const FOUND_BODY_START: &'static str = "<h1>Your Device Was Found!</h1>
		<h2>Here is some information that was provided by the person who found your device which will hopefully help you retrieve it:</h2>
		<h3>Finder Email: ";

/// The found-device e-mail's text between the finder's e-mail and phone number.
pub const FOUND_BODY_PHONE: &'static str = "</h3>
		<h3>Finder Phone Number: ";

/// The found-device e-mail's text between the phone number and the message.
pub const FOUND_BODY_MESSAGE: &'static str = "</h3>
		<h3>Finder Message: </h3>
		<p>";

/// The found-device e-mail's text after the message.
pub const FOUND_BODY_END: &'static str = "</p>";

/// Start of an inline image's address in a page.
pub const PNG_DATA_URI_PREFIX: &'static str = "data:image/png;base64,";

/// The `x` at which something `width` pixels wide is centred on the lock-screen image.
pub fn centered_x(width: u32) -> (x: u32)
    requires
        width <= PHONE_WIDTH,
    ensures
        x == (PHONE_WIDTH - width) / 2,
{
    (PHONE_WIDTH - width) / 2
}

/// The address of device `id`'s page, which the lock-screen QR code encodes.
pub open spec fn device_url(id: Seq<char>) -> Seq<char> {
    DEVICE_URL_PREFIX@ + id
}

/// The service's mailbox with display name, at `address`.
pub open spec fn sender_mailbox(address: Seq<char>) -> Seq<char> {
    SENDER_MAILBOX_START@ + address + ">"@
}

/// A mailbox without display name, at `address`.
pub open spec fn bare_mailbox(address: Seq<char>) -> Seq<char> {
    "<"@ + address + ">"@
}

/// The welcome e-mail's HTML for user `user_id`.
pub open spec fn new_user_body(user_id: Seq<char>) -> Seq<char> {
    NEW_USER_BODY_START@ + user_id + NEW_USER_BODY_END@
}

/// A contact detail, or a note that the finder left it out.
pub open spec fn or_not_provided(detail: Seq<char>) -> Seq<char> {
    if detail.len() > 0 {
        detail
    } else {
        NOT_PROVIDED@
    }
}

/// The found-device e-mail's HTML for a finder's form.
pub open spec fn found_device_body(info: DeviceFoundRequest) -> Seq<char> {
    FOUND_BODY_START@ + or_not_provided(info.email@) + FOUND_BODY_PHONE@ + or_not_provided(
        info.phone_number@,
    ) + FOUND_BODY_MESSAGE@ + info.message@ + FOUND_BODY_END@
}

/// An e-mail to send from the service's mailbox, as HTML.
#[derive(Clone, Debug, PartialEq, Eq)]
pub struct OutgoingEmail {
    pub from: String,
    pub reply_to: Option<String>,
    pub to: String,
    pub subject: String,
    pub html_body: String,
    /// The address to encode in a lock-screen QR code attached inline under
    /// `QR_CODE_CONTENT_ID`, when the e-mail carries one.
    pub qr_code_url: Option<String>,
}

fn concat3(a: &str, b: &str, c: &str) -> (s: String)
    ensures
        s@ == a@ + b@ + c@,
{
    let mut s = String::from_str(a);
    s.append(b);
    s.append(c);
    s
}

/// The address of device `id`'s page.
pub fn device_page_url(id: &str) -> (url: String)
    ensures
        url@ == device_url(id@),
{
    let mut url = String::from_str(DEVICE_URL_PREFIX);
    url.append(id);
    url
}

/// Whether lettre accepts `text` as a mailbox: an optional display name and
/// an address in angle brackets, or a bare address.
pub uninterp spec fn parses_as_mailbox(text: Seq<char>) -> bool;

/// `str::parse::<lettre::message::Mailbox>` succeeds: lettre splits off a
/// display name before `<`, and checks the address between `<` and `>` (or
/// the whole text) for a valid user part and domain. The verdict depends on
/// the text alone.
#[verifier::external_body]
fn mailbox_parses(text: &str) -> (b: bool)
    ensures
        b == parses_as_mailbox(text@),
{
    text.parse::<lettre::message::Mailbox>().is_ok()
}

/// `m` is the welcome e-mail from the service's mailbox at `sender` to
/// `user_email` for user `user_id`.
pub open spec fn is_welcome_email(
    m: OutgoingEmail,
    sender: Seq<char>,
    user_id: Seq<char>,
    user_email: Seq<char>,
) -> bool {
    &&& m.from@ == sender_mailbox(sender)
    &&& m.reply_to is None
    &&& m.to@ == bare_mailbox(user_email)
    &&& m.subject@ == NEW_USER_SUBJECT@
    &&& m.html_body@ == new_user_body(user_id)
    &&& m.qr_code_url matches Some(url) && url@ == device_url(user_id)
}

/// `m` is the found-device e-mail from the service's mailbox at `sender` to
/// `owner` about the finder's form `info`.
pub open spec fn is_found_device_email(
    m: OutgoingEmail,
    sender: Seq<char>,
    owner: Seq<char>,
    info: DeviceFoundRequest,
) -> bool {
    &&& m.from@ == sender_mailbox(sender)
    &&& m.reply_to matches Some(r) && r@ == sender_mailbox(sender)
    &&& m.to@ == bare_mailbox(owner)
    &&& m.subject@ == DEVICE_OWNER_SUBJECT@
    &&& m.html_body@ == found_device_body(info)
    &&& m.qr_code_url is None
}

/// The found-device e-mail carries the whole form: its body ends with the
/// finder's entire message followed by the closing text; it opens with the
/// finder's e-mail address, or "Not Provided" when there is none; the phone
/// number, or "Not Provided", stands between them; and two e-mails about forms
/// that differ only in the message are the same up to the message.
pub proof fn law_found_device_email_carries_form(
    m: OutgoingEmail,
    sender: Seq<char>,
    owner: Seq<char>,
    info: DeviceFoundRequest,
    m2: OutgoingEmail,
    info2: DeviceFoundRequest,
)
    requires
        is_found_device_email(m, sender, owner, info),
        is_found_device_email(m2, sender, owner, info2),
    ensures
        ({
            let b = m.html_body@;
            let tail = info.message@ + FOUND_BODY_END@;
            let e = if info.email@.len() > 0 {
                info.email@
            } else {
                NOT_PROVIDED@
            };
            let p = if info.phone_number@.len() > 0 {
                info.phone_number@
            } else {
                NOT_PROVIDED@
            };
            let k: int = (FOUND_BODY_START@.len() + e.len()) as int;
            &&& b.len() >= tail.len()
            &&& b.subrange(b.len() - tail.len(), b.len() as int) == tail
            &&& b.subrange(0, k) == FOUND_BODY_START@ + e
            &&& b.subrange(k, k + FOUND_BODY_PHONE@.len() + p.len() + FOUND_BODY_MESSAGE@.len() as int)
                == FOUND_BODY_PHONE@ + p + FOUND_BODY_MESSAGE@
        }),
        info.email@ == info2.email@ && info.phone_number@ == info2.phone_number@ ==> ({
            let b = m.html_body@;
            let b2 = m2.html_body@;
            let n = b.len() - info.message@.len() - FOUND_BODY_END@.len();
            let n2 = b2.len() - info2.message@.len() - FOUND_BODY_END@.len();
            &&& n == n2
            &&& b.subrange(0, n) == b2.subrange(0, n2)
        }),
{
    let b = m.html_body@;
    let e = if info.email@.len() > 0 {
        info.email@
    } else {
        NOT_PROVIDED@
    };
    let p = if info.phone_number@.len() > 0 {
        info.phone_number@
    } else {
        NOT_PROVIDED@
    };
    let head = FOUND_BODY_START@ + e + FOUND_BODY_PHONE@ + p + FOUND_BODY_MESSAGE@;
    let tail = info.message@ + FOUND_BODY_END@;
    assert(b =~= head + tail);
    assert(b.subrange(b.len() - tail.len(), b.len() as int) =~= tail);
    let k: int = (FOUND_BODY_START@.len() + e.len()) as int;
    assert(b.subrange(0, k) =~= FOUND_BODY_START@ + e);
    assert(b.subrange(k, k + FOUND_BODY_PHONE@.len() + p.len() + FOUND_BODY_MESSAGE@.len() as int)
        =~= FOUND_BODY_PHONE@ + p + FOUND_BODY_MESSAGE@);
    assert(b.subrange(0, head.len() as int) =~= head);
    if info.email@ == info2.email@ && info.phone_number@ == info2.phone_number@ {
        let b2 = m2.html_body@;
        let tail2 = info2.message@ + FOUND_BODY_END@;
        assert(b2 =~= head + tail2);
        assert(b2.subrange(0, head.len() as int) =~= head);
    }
}

/// The welcome e-mail always carries the lock-screen QR code of the new
/// user's device page, whatever the user's address: the code encodes
/// `http://localhost:8000/device/` followed by the user id. The body tells
/// the user id right after its opening text, and two welcome e-mails for the
/// same user id carry the same body and QR code whatever the addresses.
pub proof fn law_welcome_email_carries_device_qr_code(
    m: OutgoingEmail,
    sender: Seq<char>,
    user_id: Seq<char>,
    user_email: Seq<char>,
    m2: OutgoingEmail,
    sender2: Seq<char>,
    user_email2: Seq<char>,
)
    requires
        is_welcome_email(m, sender, user_id, user_email),
        is_welcome_email(m2, sender2, user_id, user_email2),
    ensures
        m.qr_code_url matches Some(url) && url@ == DEVICE_URL_PREFIX@ + user_id,
        m.html_body@.subrange(
            NEW_USER_BODY_START@.len() as int,
            (NEW_USER_BODY_START@.len() + user_id.len()) as int,
        ) == user_id,
        m.html_body@ == m2.html_body@,
        m2.qr_code_url matches Some(url2) && m.qr_code_url matches Some(url) && url2@ == url@,
{
    let b = m.html_body@;
    assert(b =~= NEW_USER_BODY_START@ + user_id + NEW_USER_BODY_END@);
    assert(b.subrange(NEW_USER_BODY_START@.len() as int, (NEW_USER_BODY_START@.len() + user_id.len()) as int)
        =~= user_id);
}

/// The welcome e-mail for a new user: from the service's mailbox at `sender`
/// to `user_email`, telling the user id, with the lock-screen QR code of the
/// user's device page attached. Both mailboxes must be ones lettre accepts.
pub fn email_new_user(sender: &str, user_id: &str, user_email: &str) -> (m: OutgoingEmail)
    requires
        parses_as_mailbox(sender_mailbox(sender@)),
        parses_as_mailbox(bare_mailbox(user_email@)),
    ensures
        is_welcome_email(m, sender@, user_id@, user_email@),
{
    OutgoingEmail {
        from: concat3(SENDER_MAILBOX_START, sender, ">"),
        reply_to: None,
        to: concat3("<", user_email, ">"),
        subject: String::from_str(NEW_USER_SUBJECT),
        html_body: concat3(NEW_USER_BODY_START, user_id, NEW_USER_BODY_END),
        qr_code_url: Some(device_page_url(user_id)),
    }
}

/// The welcome e-mail, or `None` when lettre refuses the sender's or the new
/// user's mailbox.
pub fn try_email_new_user(sender: &str, user_id: &str, user_email: &str) -> (r: Option<OutgoingEmail>)
    ensures
        r is Some <==> parses_as_mailbox(sender_mailbox(sender@)) && parses_as_mailbox(
            bare_mailbox(user_email@),
        ),
        r matches Some(m) ==> is_welcome_email(m, sender@, user_id@, user_email@),
{
    let from = concat3(SENDER_MAILBOX_START, sender, ">");
    let to = concat3("<", user_email, ">");
    if mailbox_parses(from.as_str()) && mailbox_parses(to.as_str()) {
        Some(email_new_user(sender, user_id, user_email))
    } else {
        None
    }
}

/// The e-mail telling a device's owner that it was found: from and replying
/// to the service's mailbox at `sender`, to `device_owner_email`, with the
/// finder's e-mail, phone number (each marked as not provided when empty) and
/// message. Both mailboxes must be ones lettre accepts.
pub fn email_device_owner(sender: &str, device_owner_email: &str, email_info: DeviceFoundRequest) -> (m: OutgoingEmail)
    requires
        parses_as_mailbox(sender_mailbox(sender@)),
        parses_as_mailbox(bare_mailbox(device_owner_email@)),
    ensures
        is_found_device_email(m, sender@, device_owner_email@, email_info),
{
    let mut body = String::from_str(FOUND_BODY_START);
    if email_info.email.as_str().is_empty() {
        body.append(NOT_PROVIDED);
    } else {
        body.append(email_info.email.as_str());
    }
    body.append(FOUND_BODY_PHONE);
    if email_info.phone_number.as_str().is_empty() {
        body.append(NOT_PROVIDED);
    } else {
        body.append(email_info.phone_number.as_str());
    }
    body.append(FOUND_BODY_MESSAGE);
    body.append(email_info.message.as_str());
    body.append(FOUND_BODY_END);
    OutgoingEmail {
        from: concat3(SENDER_MAILBOX_START, sender, ">"),
        reply_to: Some(concat3(SENDER_MAILBOX_START, sender, ">")),
        to: concat3("<", device_owner_email, ">"),
        subject: String::from_str(DEVICE_OWNER_SUBJECT),
        html_body: body,
        qr_code_url: None,
    }
}

/// The found-device e-mail, or `None` when lettre refuses the sender's or
/// the owner's mailbox.
pub fn try_email_device_owner(sender: &str, device_owner_email: &str, email_info: DeviceFoundRequest) -> (r: Option<OutgoingEmail>)
    ensures
        r is Some <==> parses_as_mailbox(sender_mailbox(sender@)) && parses_as_mailbox(
            bare_mailbox(device_owner_email@),
        ),
        r matches Some(m) ==> is_found_device_email(m, sender@, device_owner_email@, email_info),
{
    let from = concat3(SENDER_MAILBOX_START, sender, ">");
    let to = concat3("<", device_owner_email, ">");
    if mailbox_parses(from.as_str()) && mailbox_parses(to.as_str()) {
        Some(email_device_owner(sender, device_owner_email, email_info))
    } else {
        None
    }
}

/// The character of the standard base64 alphabet (`A-Z`, `a-z`, `0-9`, `+`,
/// `/`) for a 6-bit value `k`.
pub open spec fn base64_char(k: int) -> char {
    if k < 26 {
        (65 + k) as char
    } else if k < 52 {
        (71 + k) as char
    } else if k < 62 {
        (k - 4) as char
    } else if k == 62 {
        '+'
    } else {
        '/'
    }
}

/// Byte `i` of `data`, or 0 past its end.
pub open spec fn byte_or_zero(data: Seq<u8>, i: int) -> int {
    if i < data.len() {
        data[i] as int
    } else {
        0
    }
}

/// Standard base64 text of `data`, with `=` padding: each group of three
/// bytes (filled with zeros at the end) gives four characters, one for each
/// of its 6-bit pieces from the highest; a character made only of fill is `=`.
pub open spec fn base64_standard(data: Seq<u8>) -> Seq<char> {
    Seq::new(
        4 * ((data.len() + 2) / 3),
        |i: int|
            {
                let g = i / 4;
                let p = i % 4;
                let v = byte_or_zero(data, 3 * g) * 65536 + byte_or_zero(data, 3 * g + 1) * 256
                    + byte_or_zero(data, 3 * g + 2);
                let unit = if p == 0 {
                    262144
                } else if p == 1 {
                    4096
                } else if p == 2 {
                    64
                } else {
                    1
                };
                if p >= 2 && 3 * g + p - 1 >= data.len() {
                    '='
                } else {
                    base64_char((v / unit) % 64)
                }
            },
    )
}

/// `base64::encode`: the standard alphabet with `=` padding, as
/// `base64_standard` spells out. The crate panics when the encoded length
/// overflows `usize`, which `requires` rules out.
#[verifier::external_body]
fn encode_base64(data: &[u8]) -> (s: String)
    requires
        4 * ((data@.len() + 2) / 3) <= usize::MAX,
    ensures
        s@ == base64_standard(data@),
{
    base64::encode(data)
}

/// The `data:` address of a PNG image from its base64 text.
pub fn png_data_uri_of_base64(encoded: &str) -> (uri: String)
    ensures
        uri@ == PNG_DATA_URI_PREFIX@ + encoded@,
{
    let mut uri = String::from_str(PNG_DATA_URI_PREFIX);
    uri.append(encoded);
    uri
}

/// A PNG image written inline as a `data:` address.
pub fn png_data_uri(png: &[u8]) -> (uri: String)
    requires
        4 * ((png@.len() + 2) / 3) <= usize::MAX,
    ensures
        uri@ == PNG_DATA_URI_PREFIX@ + base64_standard(png@),
{
    let encoded = encode_base64(png);
    png_data_uri_of_base64(encoded.as_str())
}

} // verus!
