//! Credentials of the RPC server, and the header that carries them.
use vstd::prelude::*;
use vstd::utf8::encode_utf8;
use base64::Engine;

use crate::error::{ClientError, ClientErrorView};

verus! {

/// The different authentication methods for the client.
#[derive(Clone, Debug, Hash, Eq, PartialEq, Ord, PartialOrd)]
pub enum Auth {
    /// A username and a password.
    UserPass(String, String),
    /// A file whose first line holds the username and the password with a colon between them.
    CookieFile(std::path::PathBuf),
}

/// An [`Auth`] with its texts as sequences of characters.
pub enum AuthView {
    UserPass(Seq<char>, Seq<char>),
    CookieFile(std::path::PathBuf),
}

impl View for Auth {
    type V = AuthView;

    open spec fn view(&self) -> AuthView {
        match *self {
            Auth::UserPass(user, password) => AuthView::UserPass(user@, password@),
            Auth::CookieFile(path) => AuthView::CookieFile(path),
        }
    }
}

/// What reading the first line of a file gave: `None` where the file is empty, the line without its
/// line end, or the message of the error that opening or reading the file ended in.
pub type FirstLine = Option<Result<String, String>>;

/// A [`FirstLine`] with its texts as sequences of characters.
pub open spec fn first_line_view(line: FirstLine) -> Option<Result<Seq<char>, Seq<char>>> {
    match line {
        None => None,
        Some(Ok(text)) => Some(Ok(text@)),
        Some(Err(message)) => Some(Err(message@)),
    }
}

/// The username and the password in the line of a cookie file: what stands before its first colon,
/// and everything after it.
pub open spec fn cookie_credentials(line: Seq<char>) -> Option<(Seq<char>, Seq<char>)> {
    match line.index_of_first(':') {
        Some(colon) => Some((line.take(colon), line.skip(colon + 1))),
        None => None,
    }
}

impl AuthView {
    /// The username and the password, where `line` is what reading the first line of the cookie
    /// file gave.
    pub open spec fn user_pass(self, line: Option<Result<Seq<char>, Seq<char>>>) -> Result<
        (Seq<char>, Seq<char>),
        ClientErrorView,
    > {
        match self {
            AuthView::UserPass(user, password) => Ok((user, password)),
            AuthView::CookieFile(_) => match line {
                None => Err(ClientErrorView::Other("Invalid cookie file"@)),
                Some(Err(message)) => Err(ClientErrorView::Other(message)),
                Some(Ok(text)) => match cookie_credentials(text) {
                    Some(credentials) => Ok(credentials),
                    None => Err(ClientErrorView::Other("Invalid cookie file"@)),
                },
            },
        }
    }

    /// The credentials that a client can be made with: a username and a password, neither empty.
    pub open spec fn usable(self, line: Option<Result<Seq<char>, Seq<char>>>) -> Option<
        (Seq<char>, Seq<char>),
    > {
        match self.user_pass(line) {
            Ok((user, password)) if user.len() > 0 && password.len() > 0 => Some((user, password)),
            _ => None,
        }
    }
}

/// The position of the first `needle` in `text`.
fn find_char(text: &str, needle: char) -> (r: Option<usize>)
    ensures
        r matches Some(i) ==> text@.index_of_first(needle) == Some(i as int) && i < text@.len(),
        r is None ==> text@.index_of_first(needle) is None,
{
    let len: usize = text.unicode_len();
    let mut i: usize = 0;
    while i < len
        invariant
            i <= len,
            len == text@.len(),
            forall|j: int| 0 <= j < i ==> text@[j] != needle,
        decreases len - i,
    {
        if text.get_char(i) == needle {
            proof {
                text@.index_of_first_ensures(needle);
                assert(text@.contains(text@[i as int]));
            }
            return Some(i);
        }
        i = i + 1;
    }
    proof {
        text@.index_of_first_ensures(needle);
    }
    None
}

impl Auth {
    /// The file to read the first line of before the credentials are known.
    pub fn cookie_path(&self) -> (r: Option<&std::path::PathBuf>)
        ensures
            match self@ {
                AuthView::UserPass(_, _) => r is None,
                AuthView::CookieFile(path) => r == Some(&path),
            },
    {
        match self {
            Auth::UserPass(_, _) => None,
            Auth::CookieFile(path) => Some(path),
        }
    }

    /// The username and the password. `line` is what reading the first line of the file at
    /// [`Auth::cookie_path`] gave; it is not looked at where there is no such file.
    pub fn get_user_pass(self, line: FirstLine) -> (r: Result<
        (Option<String>, Option<String>),
        ClientError,
    >)
        ensures
            match self@.user_pass(first_line_view(line)) {
                Ok((user, password)) => {
                    r matches Ok((Some(u), Some(p))) && u@ == user && p@ == password
                },
                Err(error) => r matches Err(e) && e@ == error,
            },
    {
        match self {
            Auth::UserPass(user, password) => Ok((Some(user), Some(password))),
            Auth::CookieFile(_) => match line {
                None => Err(ClientError::Other("Invalid cookie file".to_string())),
                Some(Err(message)) => Err(ClientError::Other(message)),
                Some(Ok(text)) => match find_char(text.as_str(), ':') {
                    None => Err(ClientError::Other("Invalid cookie file".to_string())),
                    Some(colon) => {
                        let len: usize = text.as_str().unicode_len();
                        let user = text.as_str().substring_char(0, colon).to_string();
                        let password = text.as_str().substring_char(colon + 1, len).to_string();
                        Ok((Some(user), Some(password)))
                    },
                },
            },
        }
    }
}

/// The character of a six-bit value in the standard base64 alphabet.
pub open spec fn base64_char(v: nat) -> char
    recommends
        v < 64,
{
    if v < 26 {
        ('A' as nat + v) as char
    } else if v < 52 {
        ('a' as nat + v - 26) as char
    } else if v < 62 {
        ('0' as nat + v - 52) as char
    } else if v == 62 {
        '+'
    } else {
        '/'
    }
}

/// The byte at `i`, and zero behind the last one.
pub open spec fn byte_or_zero(bytes: Seq<u8>, i: int) -> nat {
    if 0 <= i < bytes.len() {
        bytes[i] as nat
    } else {
        0
    }
}

/// The `k`-th of the four six-bit values in the three bytes from `i` on.
pub open spec fn sextet(bytes: Seq<u8>, i: int, k: int) -> nat {
    let b0 = byte_or_zero(bytes, i);
    let b1 = byte_or_zero(bytes, i + 1);
    let b2 = byte_or_zero(bytes, i + 2);
    if k == 0 {
        b0 / 4
    } else if k == 1 {
        b0 % 4 * 16 + b1 / 16
    } else if k == 2 {
        b1 % 16 * 4 + b2 / 64
    } else {
        b2 % 64
    }
}

/// The standard base64 encoding of `bytes`, padded with `=`.
pub open spec fn base64_text(bytes: Seq<u8>) -> Seq<char> {
    Seq::new(
        (4 * ((bytes.len() + 2) / 3)) as nat,
        |i: int|
            if 3 * (i / 4) + i % 4 > bytes.len() {
                '='
            } else {
                base64_char(sextet(bytes, 3 * (i / 4), i % 4))
            },
    )
}

/// Whether an encoding of `bytes` fits into memory.
pub open spec fn base64_fits(bytes: Seq<u8>) -> bool {
    4 * ((bytes.len() + 2) / 3) <= isize::MAX
}

/// Calls `encode` of [`base64::engine::general_purpose::STANDARD`], the base64 of RFC 4648 with the
/// standard alphabet and padding. It panics where the encoding is too long for memory.
#[verifier::external_body]
fn base64_encode(bytes: &[u8]) -> (r: String)
    requires
        base64_fits(bytes@),
    ensures
        r@ == base64_text(bytes@),
{
    base64::engine::general_purpose::STANDARD.encode(bytes)
}

/// The bytes of a username and a password with a colon between them.
pub open spec fn credential_bytes(user: Seq<char>, password: Seq<char>) -> Seq<u8> {
    encode_utf8(user + ":"@ + password)
}

/// The value of the `Authorization` header for a username and a password.
pub open spec fn authorization_text(user: Seq<char>, password: Seq<char>) -> Seq<char> {
    "Basic "@ + base64_text(credential_bytes(user, password))
}

/// The value of the `Authorization` header for a username and a password.
pub fn basic_authorization(user: &str, password: &str) -> (r: String)
    requires
        base64_fits(credential_bytes(user@, password@)),
    ensures
        r@ == authorization_text(user@, password@),
{
    let mut credentials = String::new();
    credentials.append(user);
    credentials.append(":");
    credentials.append(password);
    proof {
        assert(credentials@ =~= user@ + ":"@ + password@);
    }
    let encoded = base64_encode(credentials.as_str().as_bytes());
    let mut text = String::new();
    text.append("Basic ");
    text.append(encoded.as_str());
    proof {
        assert(text@ =~= "Basic "@ + encoded@);
    }
    text
}

/// A character takes at most four bytes in UTF-8.
proof fn lemma_utf8_len(chars: Seq<char>)
    ensures
        encode_utf8(chars).len() <= 4 * chars.len(),
    decreases chars.len(),
{
    if chars.len() > 0 {
        lemma_utf8_len(chars.drop_first());
    }
}

/// Credentials of up to 2^28 characters are within the limits of any machine.
pub proof fn short_credentials_fit(user: Seq<char>, password: Seq<char>)
    requires
        user.len() + password.len() < 0x1000_0000,
    ensures
        base64_fits(credential_bytes(user, password)),
{
    reveal_strlit(":");
    lemma_utf8_len(user + ":"@ + password);
}

/// The line of a cookie file is its username, a colon and its password.
pub proof fn cookie_line_holds_credentials(line: Seq<char>, user: Seq<char>, password: Seq<char>)
    requires
        cookie_credentials(line) == Some((user, password)),
    ensures
        line == user + ":"@ + password,
        !user.contains(':'),
{
    reveal_strlit(":");
    line.index_of_first_ensures(':');
    let colon = line.index_of_first(':')->Some_0;
    assert(user =~= line.take(colon));
    assert(line =~= user + ":"@ + password);
}

/// A username without a colon and a password, written with a colon between them, are read back from
/// a cookie file. The password may hold colons.
pub proof fn cookie_round_trips(user: Seq<char>, password: Seq<char>)
    requires
        !user.contains(':'),
    ensures
        cookie_credentials(user + ":"@ + password) == Some((user, password)),
{
    reveal_strlit(":");
    let line = user + ":"@ + password;
    line.index_of_first_ensures(':');
    assert(line[user.len() as int] == ':');
    assert(line.contains(':'));
    let colon = line.index_of_first(':')->Some_0;
    if colon < user.len() {
        assert(user[colon] == line[colon]);
        assert(user.contains(user[colon]));
    }
    assert(colon == user.len());
    assert(line.take(colon) =~= user);
    assert(line.skip(colon + 1) =~= password);
}

/// A cookie file and its username and password, given as such, make for the same header.
pub proof fn cookie_authorizes_as_its_credentials(
    path: std::path::PathBuf,
    line: Seq<char>,
    user: Seq<char>,
    password: Seq<char>,
)
    requires
        AuthView::CookieFile(path).user_pass(Some(Ok(line))) == Ok::<_, ClientErrorView>(
            (user, password),
        ),
    ensures
        AuthView::UserPass(user, password).user_pass(None) == Ok::<_, ClientErrorView>(
            (user, password),
        ),
        authorization_text(user, password) == "Basic "@ + base64_text(encode_utf8(line)),
{
    cookie_line_holds_credentials(line, user, password);
}

/// Six-bit values are below 64.
proof fn lemma_sextet_bound(bytes: Seq<u8>, i: int, k: int)
    ensures
        sextet(bytes, i, k) < 64,
{
    assert(byte_or_zero(bytes, i) < 256);
    assert(byte_or_zero(bytes, i + 1) < 256);
    assert(byte_or_zero(bytes, i + 2) < 256);
}

/// The standard alphabet tells six-bit values apart, and does not hold the padding character.
proof fn lemma_base64_char(v: nat, w: nat)
    requires
        v < 64,
        w < 64,
    ensures
        base64_char(v) != '=',
        base64_char(v) == base64_char(w) ==> v == w,
{
}

/// Different bytes have different encodings.
pub proof fn base64_is_injective(a: Seq<u8>, b: Seq<u8>)
    requires
        base64_text(a) == base64_text(b),
    ensures
        a == b,
{
    if a.len() < b.len() {
        lemma_shorter_base64_differs(a, b);
    } else if b.len() < a.len() {
        lemma_shorter_base64_differs(b, a);
    }
    assert forall|j: int| 0 <= j < a.len() implies a[j] == b[j] by {
        let g = j / 3;
        let first = 3 * g;
        assert(g + 1 <= (a.len() + 2) / 3);
        assert forall|k: int| 0 <= k <= j % 3 + 1 implies #[trigger] sextet(a, first, k) == sextet(
            b,
            first,
            k,
        ) by {
            let i = 4 * g + k;
            assert(i / 4 == g && i % 4 == k);
            assert(first + k <= a.len());
            assert(i < base64_text(a).len());
            assert(base64_text(a)[i] == base64_char(sextet(a, first, k)));
            assert(base64_text(b)[i] == base64_char(sextet(b, first, k)));
            lemma_sextet_bound(a, first, k);
            lemma_sextet_bound(b, first, k);
            lemma_base64_char(sextet(a, first, k), sextet(b, first, k));
        }
        assert(sextet(a, first, j % 3) == sextet(b, first, j % 3));
        assert(sextet(a, first, j % 3 + 1) == sextet(b, first, j % 3 + 1));
        assert(byte_or_zero(a, j) == a[j] && byte_or_zero(b, j) == b[j]);
    }
    assert(a =~= b);
}

/// Bytes that are fewer than others are encoded otherwise.
proof fn lemma_shorter_base64_differs(a: Seq<u8>, b: Seq<u8>)
    requires
        a.len() < b.len(),
    ensures
        base64_text(a) != base64_text(b),
{
    if base64_text(a) == base64_text(b) {
        assert(base64_text(a).len() == base64_text(b).len());
        let g = (b.len() - 1) / 3;
        let k = b.len() - 3 * g;
        let i = 4 * g + k;
        assert(i / 4 == g && i % 4 == k);
        assert(base64_text(a)[i] == base64_text(b)[i]);
        lemma_sextet_bound(b, 3 * g, k);
        lemma_base64_char(sextet(b, 3 * g, k), 0);
    }
}

/// The `Authorization` header says which username and password it was made from, as long as no
/// colon stands in the username.
pub proof fn authorization_tells_credentials(
    user1: Seq<char>,
    password1: Seq<char>,
    user2: Seq<char>,
    password2: Seq<char>,
)
    requires
        !user1.contains(':'),
        !user2.contains(':'),
        authorization_text(user1, password1) == authorization_text(user2, password2),
    ensures
        user1 == user2,
        password1 == password2,
{
    let bytes1 = credential_bytes(user1, password1);
    let bytes2 = credential_bytes(user2, password2);
    let text1 = authorization_text(user1, password1);
    let text2 = authorization_text(user2, password2);
    assert(base64_text(bytes1) =~= text1.skip("Basic "@.len() as int));
    assert(base64_text(bytes2) =~= text2.skip("Basic "@.len() as int));
    base64_is_injective(bytes1, bytes2);
    vstd::utf8::encode_utf8_decode_utf8(user1 + ":"@ + password1);
    vstd::utf8::encode_utf8_decode_utf8(user2 + ":"@ + password2);
    cookie_round_trips(user1, password1);
    cookie_round_trips(user2, password2);
}

/// The six-bit value of a character of the standard base64 alphabet.
pub open spec fn base64_value(c: char) -> nat {
    if 'A' <= c <= 'Z' {
        (c as nat - 'A' as nat) as nat
    } else if 'a' <= c <= 'z' {
        (c as nat - 'a' as nat + 26) as nat
    } else if '0' <= c <= '9' {
        (c as nat - '0' as nat + 52) as nat
    } else if c == '+' {
        62
    } else {
        63
    }
}

/// How many bytes a padded base64 text stands for: three for every four characters, less one for
/// each `=` at its end.
pub open spec fn base64_len(text: Seq<char>) -> nat {
    let full = 3 * (text.len() / 4);
    if text.len() < 2 {
        0
    } else if text[text.len() - 2] == '=' {
        (full - 2) as nat
    } else if text[text.len() - 1] == '=' {
        (full - 1) as nat
    } else {
        full
    }
}

/// The bytes that a base64 text stands for: each four characters hold the bits of three bytes.
pub open spec fn base64_bytes(text: Seq<char>) -> Seq<u8> {
    Seq::new(
        base64_len(text),
        |j: int|
            {
                let first = 4 * (j / 3);
                if j % 3 == 0 {
                    (base64_value(text[first]) * 4 + base64_value(text[first + 1]) / 16) as u8
                } else if j % 3 == 1 {
                    (base64_value(text[first + 1]) % 16 * 16 + base64_value(text[first + 2]) / 4)
                        as u8
                } else {
                    (base64_value(text[first + 2]) % 4 * 64 + base64_value(text[first + 3])) as u8
                }
            },
    )
}

/// A character of the alphabet has the value that it stands for.
proof fn lemma_base64_value(v: nat)
    requires
        v < 64,
    ensures
        base64_value(base64_char(v)) == v,
        base64_char(v) != '=',
{
}

/// Where four characters do not all stand for padding, each of them has its six bits.
proof fn lemma_base64_position(bytes: Seq<u8>, group: int, k: int)
    requires
        0 <= group,
        0 <= k < 4,
        3 * group + k <= bytes.len(),
        3 * group < bytes.len(),
    ensures
        4 * group + k < base64_text(bytes).len(),
        base64_text(bytes)[4 * group + k] == base64_char(sextet(bytes, 3 * group, k)),
        base64_text(bytes)[4 * group + k] != '=',
        base64_value(base64_text(bytes)[4 * group + k]) == sextet(bytes, 3 * group, k),
{
    let i = 4 * group + k;
    assert(i / 4 == group && i % 4 == k);
    assert(group + 1 <= (bytes.len() + 2) / 3);
    lemma_sextet_bound(bytes, 3 * group, k);
    lemma_base64_value(sextet(bytes, 3 * group, k));
}

/// The number of bytes can be told from the padding.
proof fn lemma_base64_len(bytes: Seq<u8>)
    ensures
        base64_len(base64_text(bytes)) == bytes.len(),
{
    let text = base64_text(bytes);
    let n = bytes.len() as int;
    if n > 0 {
        let g = (n - 1) / 3;
        let left = n - 3 * g;
        assert(text.len() == 4 * (g + 1));
        assert(text.len() / 4 == g + 1);
        assert((text.len() - 2) / 4 == g && (text.len() - 2) % 4 == 2);
        assert((text.len() - 1) / 4 == g && (text.len() - 1) % 4 == 3);
        if left >= 2 {
            lemma_base64_position(bytes, g, 2);
        }
        if left == 3 {
            lemma_base64_position(bytes, g, 3);
        }
    }
}

/// The bits of a byte come together again from the six-bit values that they were parted into.
proof fn lemma_sextets_join(bytes: Seq<u8>, first: int)
    ensures
        sextet(bytes, first, 0) * 4 + sextet(bytes, first, 1) / 16 == byte_or_zero(bytes, first),
        sextet(bytes, first, 1) % 16 * 16 + sextet(bytes, first, 2) / 4 == byte_or_zero(
            bytes,
            first + 1,
        ),
        sextet(bytes, first, 2) % 4 * 64 + sextet(bytes, first, 3) == byte_or_zero(
            bytes,
            first + 2,
        ),
{
    assert(byte_or_zero(bytes, first) < 256);
    assert(byte_or_zero(bytes, first + 1) < 256);
    assert(byte_or_zero(bytes, first + 2) < 256);
}

/// Each byte is read back.
proof fn lemma_base64_byte(bytes: Seq<u8>, j: int)
    requires
        0 <= j < bytes.len(),
    ensures
        base64_bytes(base64_text(bytes))[j] == bytes[j],
{
    let text = base64_text(bytes);
    let g = j / 3;
    let k = j % 3;
    assert(j == 3 * g + k);
    lemma_base64_len(bytes);
    lemma_base64_position(bytes, g, k);
    lemma_base64_position(bytes, g, k + 1);
    lemma_sextets_join(bytes, 3 * g);
    assert(byte_or_zero(bytes, j) == bytes[j]);
}

/// A reader of base64 gets back the bytes that were encoded, whatever they are and however many.
pub proof fn base64_is_read_back(bytes: Seq<u8>)
    ensures
        base64_bytes(base64_text(bytes)) == bytes,
{
    let read = base64_bytes(base64_text(bytes));
    lemma_base64_len(bytes);
    assert forall|j: int| 0 <= j < bytes.len() implies #[trigger] read[j] == bytes[j] by {
        lemma_base64_byte(bytes, j);
    }
    assert(read =~= bytes);
}

} // verus!
