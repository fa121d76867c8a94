//! Session claims: who a session token stands for and for how long.

use crate::graphql::user::schema::SessionUser;
use vstd::prelude::*;
use vstd::string::StringExecFns;

verus! {

/// The claims of a session token.
#[derive(Debug, PartialEq, Eq)]
pub struct Claims {
    pub sub: String,
    pub exp: i64,
    pub iat: i64,
    pub email: String,
}

/// The mathematical value of [`Claims`].
pub struct ClaimsView {
    pub sub: Seq<char>,
    pub exp: int,
    pub iat: int,
    pub email: Seq<char>,
}

impl View for Claims {
    type V = ClaimsView;

    open spec fn view(&self) -> ClaimsView {
        ClaimsView { sub: self.sub@, exp: self.exp as int, iat: self.iat as int, email: self.email@ }
    }
}

impl Clone for Claims {
    fn clone(&self) -> (copy: Self)
        ensures
            copy@ == self@,
    {
        Claims { sub: self.sub.clone(), exp: self.exp, iat: self.iat, email: self.email.clone() }
    }
}

/// The character for a hexadecimal digit, in lower case.
pub open spec fn hex_char(d: nat) -> char {
    if d == 0 {
        '0'
    } else if d == 1 {
        '1'
    } else if d == 2 {
        '2'
    } else if d == 3 {
        '3'
    } else if d == 4 {
        '4'
    } else if d == 5 {
        '5'
    } else if d == 6 {
        '6'
    } else if d == 7 {
        '7'
    } else if d == 8 {
        '8'
    } else if d == 9 {
        '9'
    } else if d == 10 {
        'a'
    } else if d == 11 {
        'b'
    } else if d == 12 {
        'c'
    } else if d == 13 {
        'd'
    } else if d == 14 {
        'e'
    } else {
        'f'
    }
}

/// The lowest `digits` hexadecimal digits of a number, highest first.
pub open spec fn hex_text(n: nat, digits: nat) -> Seq<char>
    decreases digits,
{
    if digits == 0 {
        Seq::empty()
    } else {
        hex_text(n / 16, (digits - 1) as nat).push(hex_char(n % 16))
    }
}

/// An identifier in its usual form: 32 hexadecimal digits in lower case, in
/// groups of 8, 4, 4, 4 and 12 with hyphens between them.
pub open spec fn uuid_text(id: u128) -> Seq<char> {
    hex_text((id / 0x1_0000_0000_0000_0000_0000_0000) as nat, 8) + "-"@ + hex_text(
        (id / 0x1_0000_0000_0000_0000_0000 % 0x1_0000) as nat,
        4,
    ) + "-"@ + hex_text((id / 0x1_0000_0000_0000_0000 % 0x1_0000) as nat, 4) + "-"@ + hex_text(
        (id / 0x1_0000_0000_0000 % 0x1_0000) as nat,
        4,
    ) + "-"@ + hex_text((id % 0x1_0000_0000_0000) as nat, 12)
}

/// The claims for a user whose session begins at `now` and lasts `ttl`
/// minutes.
pub open spec fn claims_for(id: u128, email: Seq<char>, ttl: i64, now: i64) -> ClaimsView {
    ClaimsView { sub: uuid_text(id), exp: now + ttl * 60, iat: now as int, email }
}

/// Whether the length of a session of `ttl` minutes, and its end when it
/// begins at `now`, can be told in seconds as 64-bit numbers.
pub open spec fn session_fits(ttl: i64, now: i64) -> bool {
    i64::MIN <= ttl * 60 <= i64::MAX && i64::MIN <= now + ttl * 60 <= i64::MAX
}

/// The name and the value of the header that carries a session token.
pub open spec fn auth_header(token: Seq<char>) -> (Seq<char>, Seq<char>) {
    ("authorization"@, "Bearer "@ + token)
}

fn hex_digit(d: u64) -> (text: &'static str)
    requires
        d < 16,
    ensures
        text@ == seq![hex_char(d as nat)],
{
    proof {
        reveal_strlit("0");
        reveal_strlit("1");
        reveal_strlit("2");
        reveal_strlit("3");
        reveal_strlit("4");
        reveal_strlit("5");
        reveal_strlit("6");
        reveal_strlit("7");
        reveal_strlit("8");
        reveal_strlit("9");
        reveal_strlit("a");
        reveal_strlit("b");
        reveal_strlit("c");
        reveal_strlit("d");
        reveal_strlit("e");
        reveal_strlit("f");
    }
    let text = if d == 0 {
        "0"
    } else if d == 1 {
        "1"
    } else if d == 2 {
        "2"
    } else if d == 3 {
        "3"
    } else if d == 4 {
        "4"
    } else if d == 5 {
        "5"
    } else if d == 6 {
        "6"
    } else if d == 7 {
        "7"
    } else if d == 8 {
        "8"
    } else if d == 9 {
        "9"
    } else if d == 10 {
        "a"
    } else if d == 11 {
        "b"
    } else if d == 12 {
        "c"
    } else if d == 13 {
        "d"
    } else if d == 14 {
        "e"
    } else {
        "f"
    };
    assert(text@ =~= seq![hex_char(d as nat)]);
    text
}

/// The lowest `digits` hexadecimal digits of a number, highest first.
pub fn hex_fixed(n: u64, digits: u32) -> (text: String)
    ensures
        text@ == hex_text(n as nat, digits as nat),
    decreases digits,
{
    if digits == 0 {
        String::new()
    } else {
        let mut text = hex_fixed(n / 16, digits - 1);
        text.append(hex_digit(n % 16));
        assert(text@ =~= hex_text(n as nat / 16, (digits - 1) as nat).push(hex_char(n as nat % 16)));
        text
    }
}

/// An identifier in its usual form.
pub fn uuid_string(id: u128) -> (text: String)
    ensures
        text@ == uuid_text(id),
{
    let time_low: u64 = (id / 0x1_0000_0000_0000_0000_0000_0000) as u64;
    let time_mid: u64 = (id / 0x1_0000_0000_0000_0000_0000 % 0x1_0000) as u64;
    let time_high: u64 = (id / 0x1_0000_0000_0000_0000 % 0x1_0000) as u64;
    let clock: u64 = (id / 0x1_0000_0000_0000 % 0x1_0000) as u64;
    let node: u64 = (id % 0x1_0000_0000_0000) as u64;
    hex_fixed(time_low, 8).concat("-").concat(hex_fixed(time_mid, 4).as_str()).concat("-").concat(
        hex_fixed(time_high, 4).as_str(),
    ).concat("-").concat(hex_fixed(clock, 4).as_str()).concat("-").concat(
        hex_fixed(node, 12).as_str(),
    )
}

impl Claims {
    /// The claims for a user whose session begins at `now`, in seconds since
    /// the Unix epoch, and lasts `ttl` minutes.
    pub fn new(session_user: &SessionUser, ttl: i64, now: i64) -> (claims: Self)
        requires
            session_fits(ttl, now),
        ensures
            claims@ == claims_for(session_user.id, session_user.email@, ttl, now),
    {
        Claims {
            sub: uuid_string(session_user.id),
            exp: now + ttl * 60,
            iat: now,
            email: session_user.email.clone(),
        }
    }

    /// The claims for a user whose session begins at `now` and lasts `ttl`
    /// minutes, if the length and the end of the session can be told in
    /// seconds as 64-bit numbers.
    pub fn checked_new(session_user: &SessionUser, ttl: i64, now: i64) -> (claims: Option<Self>)
        ensures
            match claims {
                Some(c) => session_fits(ttl, now) && c@ == claims_for(
                    session_user.id,
                    session_user.email@,
                    ttl,
                    now,
                ),
                None => !session_fits(ttl, now),
            },
    {
        match ttl.checked_mul(60) {
            Some(secs) => match now.checked_add(secs) {
                Some(_) => Some(Claims::new(session_user, ttl, now)),
                None => None,
            },
            None => None,
        }
    }
}

/// The name and the value of the header that carries the token.
pub fn get_auth_header_pair(token: String) -> (pair: (String, String))
    ensures
        (pair.0@, pair.1@) == auth_header(token@),
{
    (String::from_str("authorization"), String::from_str("Bearer ").concat(token.as_str()))
}

} // verus!
