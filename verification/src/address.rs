//! The addressing conventions that keep concurrent sessions isolated.
//!
//! Every session derives its private namespaces from its numeric id: the
//! display identifier is `:1` followed by the id zero-padded to four
//! digits, and the audio-server address is `tcp:localhost:1` followed by
//! the same four digits. The two derivations must stay in lockstep — they
//! must embed the same padded digits — which
//! [`lemma_display_audio_lockstep`] states and proves. File-based
//! recordings go to `<dir>/recording-<id>.mp4` with the id unpadded.

use vstd::prelude::*;
use vstd::string::StringExecFns;

verus! {

/// The decimal digit character for `d` (meaningful for `d < 10`).
pub open spec fn dec_digit(d: nat) -> char {
    if d == 0 {
        '0'
    } else if d == 1 {
        '1'
    } else if d == 2 {
        '2'
    } else if d == 3 {
        '3'
    } else if d == 4 {
        '4'
    } else if d == 5 {
        '5'
    } else if d == 6 {
        '6'
    } else if d == 7 {
        '7'
    } else if d == 8 {
        '8'
    } else {
        '9'
    }
}

/// The decimal digits of `n`, most significant first, without leading
/// zeros (a single `'0'` for zero).
pub open spec fn dec_digits(n: nat) -> Seq<char>
    decreases n,
{
    if n < 10 {
        seq![dec_digit(n)]
    } else {
        dec_digits(n / 10).push(dec_digit(n % 10))
    }
}

/// `n` as exactly four decimal digits, zero-padded (meaningful for
/// `n < 10000`).
pub open spec fn pad4(n: nat) -> Seq<char> {
    seq![
        dec_digit(n / 1000 % 10),
        dec_digit(n / 100 % 10),
        dec_digit(n / 10 % 10),
        dec_digit(n % 10),
    ]
}

/// The display identifier of the session with id `id`.
pub open spec fn display_name_spec(id: nat) -> Seq<char> {
    ":1"@ + pad4(id)
}

/// The audio-server address of the session with id `id`.
pub open spec fn pulse_server_spec(id: nat) -> Seq<char> {
    "tcp:localhost:1"@ + pad4(id)
}

/// The TCP port, as text, that the audio server of session `id` listens
/// on.
pub open spec fn pulse_port_spec(id: nat) -> Seq<char> {
    "1"@ + pad4(id)
}

/// The path of the file-based recording of session `id` under `dir`.
pub open spec fn recording_path_spec(dir: Seq<char>, id: nat) -> Seq<char> {
    dir + "/recording-"@ + dec_digits(id) + ".mp4"@
}

/// The virtual display geometry argument for a `w` by `h` frame at a
/// colour depth of 24.
pub open spec fn screen_geometry_spec(w: nat, h: nat) -> Seq<char> {
    dec_digits(w) + "x"@ + dec_digits(h) + "x24"@
}

/// The single-character string of the decimal digit `d`.
fn digit_str(d: u32) -> (r: &'static str)
    requires
        d < 10,
    ensures
        r@ == seq![dec_digit(d as nat)],
{
    proof {
        reveal_strlit("0");
        reveal_strlit("1");
        reveal_strlit("2");
        reveal_strlit("3");
        reveal_strlit("4");
        reveal_strlit("5");
        reveal_strlit("6");
        reveal_strlit("7");
        reveal_strlit("8");
        reveal_strlit("9");
    }
    let r: &'static str = match d {
        0 => "0",
        1 => "1",
        2 => "2",
        3 => "3",
        4 => "4",
        5 => "5",
        6 => "6",
        7 => "7",
        8 => "8",
        _ => "9",
    };
    proof {
        assert(r@ =~= seq![dec_digit(d as nat)]);
    }
    r
}

/// `n` rendered in decimal, without leading zeros.
pub fn u32_to_dec(n: u32) -> (r: String)
    ensures
        r@ == dec_digits(n as nat),
    decreases n,
{
    if n < 10 {
        digit_str(n).to_owned()
    } else {
        let mut s = u32_to_dec(n / 10);
        s.append(digit_str(n % 10));
        proof {
            assert(s@ =~= dec_digits(n as nat));
        }
        s
    }
}

/// `n` rendered as exactly four decimal digits, zero-padded.
pub fn pad4_str(n: u32) -> (r: String)
    requires
        n < 10000,
    ensures
        r@ == pad4(n as nat),
{
    let mut s = digit_str(n / 1000 % 10).to_owned();
    s.append(digit_str(n / 100 % 10));
    s.append(digit_str(n / 10 % 10));
    s.append(digit_str(n % 10));
    proof {
        assert(s@ =~= pad4(n as nat));
    }
    s
}

/// The display identifier of the session with id `id`.
pub fn display_name(id: u32) -> (r: String)
    requires
        id < 10000,
    ensures
        r@ == display_name_spec(id as nat),
{
    let mut s: String = ":1".to_owned();
    let p = pad4_str(id);
    s.append(p.as_str());
    s
}

/// The audio-server address of the session with id `id`.
pub fn pulse_server(id: u32) -> (r: String)
    requires
        id < 10000,
    ensures
        r@ == pulse_server_spec(id as nat),
{
    let mut s: String = "tcp:localhost:1".to_owned();
    let p = pad4_str(id);
    s.append(p.as_str());
    s
}

/// The TCP port, as text, that the audio server of session `id` listens
/// on.
pub fn pulse_port(id: u32) -> (r: String)
    requires
        id < 10000,
    ensures
        r@ == pulse_port_spec(id as nat),
{
    let mut s: String = "1".to_owned();
    let p = pad4_str(id);
    s.append(p.as_str());
    s
}

/// The path of the file-based recording of session `id` under `dir`.
pub fn recording_path(dir: &str, id: u32) -> (r: String)
    ensures
        r@ == recording_path_spec(dir@, id as nat),
{
    let mut s: String = dir.to_owned();
    s.append("/recording-");
    let digits = u32_to_dec(id);
    s.append(digits.as_str());
    s.append(".mp4");
    proof {
        assert(s@ =~= recording_path_spec(dir@, id as nat));
    }
    s
}

/// The virtual display geometry argument for a `w` by `h` frame.
pub fn screen_geometry(w: u32, h: u32) -> (r: String)
    ensures
        r@ == screen_geometry_spec(w as nat, h as nat),
{
    let mut s = u32_to_dec(w);
    s.append("x");
    let hs = u32_to_dec(h);
    s.append(hs.as_str());
    s.append("x24");
    proof {
        assert(s@ =~= screen_geometry_spec(w as nat, h as nat));
    }
    s
}

/// The display identifier and the audio-server address embed the same
/// zero-padded digits: the display identifier after its `:1` prefix equals
/// the audio-server address after its `tcp:localhost:1` prefix, and both
/// equal the padded id. Any change to one derivation's prefix or padding
/// must mirror in the other.
pub proof fn lemma_display_audio_lockstep(id: nat)
    requires
        id < 10000,
    ensures
        display_name_spec(id).skip(2) == pad4(id),
        pulse_server_spec(id).skip(15) == pad4(id),
{
    reveal_strlit(":1");
    reveal_strlit("tcp:localhost:1");
    assert(display_name_spec(id).skip(2) =~= pad4(id));
    assert(pulse_server_spec(id).skip(15) =~= pad4(id));
}

} // verus!
