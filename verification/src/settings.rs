//! The persisted session: an opaque credential and the bridge address,
//! stored as two newline-separated lines of text. Parsing and serializing
//! of that format; reading and writing the file itself is left to the
//! surrounding program.

use vstd::prelude::*;
use vstd::string::*;

verus! {

/// Error from parsing the config content.
#[derive(Debug, Clone, Copy, PartialEq, Eq)]
pub enum ConfigError {
    /// The content holds fewer than two lines.
    InvalidFormat,
}

/// Mathematical model of a session: the credential and the bridge address
/// as character sequences.
pub ghost struct SettingsView {
    pub username: Seq<char>,
    pub bridge_ip: Seq<char>,
}

/// The index of the first line break at or after `from`, or the length of
/// `s` if there is none.
pub open spec fn find_newline(s: Seq<char>, from: int) -> int
    recommends
        0 <= from <= s.len(),
    decreases s.len() - from,
{
    if from >= s.len() {
        s.len() as int
    } else if s[from] == '\n' {
        from
    } else {
        find_newline(s, from + 1)
    }
}

/// A line with its trailing carriage return, if any, removed.
pub open spec fn strip_cr(s: Seq<char>) -> Seq<char> {
    if s.len() > 0 && s.last() == '\r' {
        s.drop_last()
    } else {
        s
    }
}

/// The content holds at least two lines: a first line break exists and is
/// not the final character.
pub open spec fn config_well_formed(s: Seq<char>) -> bool {
    find_newline(s, 0) + 1 < s.len()
}

/// The first line of the content.
pub open spec fn spec_config_username(s: Seq<char>) -> Seq<char> {
    strip_cr(s.subrange(0, find_newline(s, 0)))
}

/// The second line of the content.
pub open spec fn spec_config_bridge_ip(s: Seq<char>) -> Seq<char> {
    let i1 = find_newline(s, 0);
    strip_cr(s.subrange(i1 + 1, find_newline(s, i1 + 1)))
}

/// The serialized form: credential, a line break, then the address.
pub open spec fn spec_serialize(v: SettingsView) -> Seq<char> {
    v.username.push('\n') + v.bridge_ip
}

/// The session needed to issue commands without re-pairing: an authorized
/// credential and the address of the bridge that issued it.
pub struct Settings {
    username: String,
    bridge_ip: String,
}

impl View for Settings {
    type V = SettingsView;

    closed spec fn view(&self) -> SettingsView {
        SettingsView { username: self.username@, bridge_ip: self.bridge_ip@ }
    }
}

proof fn lemma_find_newline_at(s: Seq<char>, from: int, i: int)
    requires
        0 <= from <= i <= s.len(),
        forall|k: int| from <= k < i ==> s[k] != '\n',
        i == s.len() || s[i] == '\n',
    ensures
        find_newline(s, from) == i,
    decreases i - from,
{
    if from < i {
        lemma_find_newline_at(s, from + 1, i);
    }
}

/// A copy of `s` with a single trailing carriage return, if any, removed.
fn strip_trailing_cr(s: &str) -> (r: String)
    ensures
        r@ == strip_cr(s@),
{
    let n = s.unicode_len();
    if n > 0 && s.get_char(n - 1) == '\r' {
        let head = s.substring_char(0, n - 1);
        proof {
            assert(head@ =~= s@.drop_last());
        }
        String::from_str(head)
    } else {
        String::from_str(s)
    }
}

impl Settings {
    /// The opaque credential under which commands are issued.
    pub fn username(&self) -> (r: &str)
        ensures
            r@ == self@.username,
    {
        self.username.as_str()
    }

    /// The address of the paired bridge.
    pub fn bridge_ip(&self) -> (r: &str)
        ensures
            r@ == self@.bridge_ip,
    {
        self.bridge_ip.as_str()
    }

    pub fn new(username: String, bridge_ip: String) -> (r: Settings)
        ensures
            r@.username == username@,
            r@.bridge_ip == bridge_ip@,
    {
        Settings { username, bridge_ip }
    }

    /// Parses config content: the first line is the credential, the second
    /// the bridge address; further lines are ignored, fewer than two lines
    /// is a format error.
    pub fn parse(content: &str) -> (r: Result<Settings, ConfigError>)
        ensures
            r is Ok <==> config_well_formed(content@),
            (match r {
                Ok(s) => s@.username == spec_config_username(content@) && s@.bridge_ip
                    == spec_config_bridge_ip(content@),
                Err(e) => e == ConfigError::InvalidFormat,
            }),
    {
        let n = content.unicode_len();
        let mut i: usize = 0;
        while i < n && content.get_char(i) != '\n'
            invariant
                0 <= i <= n,
                n == content@.len(),
                forall|k: int| 0 <= k < i ==> content@[k] != '\n',
            decreases n - i,
        {
            i = i + 1;
        }
        proof {
            lemma_find_newline_at(content@, 0, i as int);
        }
        if n - i < 2 {
            return Err(ConfigError::InvalidFormat);
        }
        let mut j: usize = i + 1;
        while j < n && content.get_char(j) != '\n'
            invariant
                i + 1 <= j <= n,
                n == content@.len(),
                forall|k: int| i + 1 <= k < j ==> content@[k] != '\n',
            decreases n - j,
        {
            j = j + 1;
        }
        proof {
            lemma_find_newline_at(content@, i + 1 as int, j as int);
        }
        let username = strip_trailing_cr(content.substring_char(0, i));
        let bridge_ip = strip_trailing_cr(content.substring_char(i + 1, j));
        Ok(Settings { username, bridge_ip })
    }

    /// The serialized two-line form of the session, ready to be written to
    /// the config file.
    pub fn serialize(&self) -> (r: String)
        ensures
            r@ == spec_serialize(self@),
    {
        let mut out = String::from_str(self.username.as_str());
        out.append("\n");
        out.append(self.bridge_ip.as_str());
        proof {
            reveal_strlit("\n");
            assert(out@ =~= self@.username.push('\n') + self@.bridge_ip);
        }
        out
    }
}

/// Law: serializing a session and parsing the result yields the same
/// session back, whenever its fields hold no line breaks or carriage
/// returns and the address is non-empty.
pub proof fn lemma_config_round_trip(v: SettingsView)
    requires
        !v.username.contains('\n'),
        !v.username.contains('\r'),
        !v.bridge_ip.contains('\n'),
        !v.bridge_ip.contains('\r'),
        v.bridge_ip.len() > 0,
    ensures
        config_well_formed(spec_serialize(v)),
        spec_config_username(spec_serialize(v)) == v.username,
        spec_config_bridge_ip(spec_serialize(v)) == v.bridge_ip,
{
    let s = spec_serialize(v);
    let ulen = v.username.len() as int;
    assert forall|k: int| 0 <= k < ulen implies s[k] != '\n' by {
        assert(s[k] == v.username[k]);
        if v.username[k] == '\n' {
            assert(v.username.contains('\n'));
        }
    }
    assert(s[ulen] == '\n');
    lemma_find_newline_at(s, 0, ulen);
    assert(s.subrange(0, ulen) =~= v.username);
    if v.username.len() > 0 && v.username.last() == '\r' {
        assert(v.username.contains('\r'));
    }
    assert forall|k: int| ulen + 1 <= k < s.len() implies s[k] != '\n' by {
        assert(s[k] == v.bridge_ip[k - (ulen + 1)]);
        if v.bridge_ip[k - (ulen + 1)] == '\n' {
            assert(v.bridge_ip.contains('\n'));
        }
    }
    lemma_find_newline_at(s, ulen + 1, s.len() as int);
    assert(s.subrange(ulen + 1, s.len() as int) =~= v.bridge_ip);
    if v.bridge_ip.last() == '\r' {
        assert(v.bridge_ip.contains('\r'));
    }
}

/// Law: a well-formed two-line content — the credential, one line break,
/// then a non-empty address, with no further breaks and no carriage
/// returns — survives a parse followed by a serialize unchanged.
pub proof fn lemma_config_reserialize(s: Seq<char>, u: Seq<char>, b: Seq<char>)
    requires
        s == u.push('\n') + b,
        !u.contains('\n'),
        !u.contains('\r'),
        !b.contains('\n'),
        !b.contains('\r'),
        b.len() > 0,
    ensures
        config_well_formed(s),
        spec_serialize(
            (SettingsView { username: spec_config_username(s), bridge_ip: spec_config_bridge_ip(s) }),
        ) == s,
{
    lemma_config_round_trip(SettingsView { username: u, bridge_ip: b });
}

} // verus!
