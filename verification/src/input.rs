//! Keyboard input: the bytes a key press sends to the shell, following the
//! xterm conventions for control characters, the Alt prefix and the
//! modifier parameter of cursor and function keys.
use vstd::prelude::*;
use vstd::utf8::encode_utf8;

verus! {

/// The escape byte that starts every control sequence and marks Alt.
pub const ESC: u8 = 0x1b;

/// The state of the modifier keys.
#[derive(Debug, Clone, Copy, PartialEq, Eq, Structural)]
pub struct Modifiers {
    pub ctrl: bool,
    pub alt: bool,
    pub shift: bool,
}

/// The non-character keys that the terminal encodes; `Other` stands for
/// every key it sends nothing for.
#[derive(Debug, Clone, Copy, PartialEq, Eq, Structural)]
pub enum NamedKey {
    Enter,
    Backspace,
    Tab,
    Escape,
    ArrowUp,
    ArrowDown,
    ArrowRight,
    ArrowLeft,
    Home,
    End,
    PageUp,
    PageDown,
    Insert,
    Delete,
    F1,
    F2,
    F3,
    F4,
    F5,
    F6,
    F7,
    F8,
    F9,
    F10,
    F11,
    F12,
    Other,
}

/// A pressed key: the text it produces, a named key, or anything else.
#[derive(Debug)]
pub enum Key {
    Character(String),
    Named(NamedKey),
    Other,
}

/// The decimal digits of `n` in ASCII, most significant first, without
/// leading zeros.
pub open spec fn decimal(n: nat) -> Seq<u8>
    decreases n,
{
    if n < 10 {
        seq![(48 + n) as u8]
    } else {
        decimal(n / 10).push((48 + n % 10) as u8)
    }
}

/// The number that a string of ASCII decimal digits denotes.
pub open spec fn decimal_value(s: Seq<u8>) -> nat
    decreases s.len(),
{
    if s.len() == 0 {
        0
    } else {
        decimal_value(s.drop_last()) * 10 + (s.last() - 48) as nat
    }
}

/// The xterm modifier parameter: absent without modifiers, else one plus
/// one for Shift, two for Alt and four for Ctrl.
pub open spec fn modifier_param_of(m: Modifiers) -> Option<u8> {
    if m.ctrl || m.shift || m.alt {
        Some(
            (1 + (if m.shift { 1int } else { 0 }) + (if m.alt { 2int } else { 0 }) + (if m.ctrl {
                4int
            } else {
                0
            })) as u8,
        )
    } else {
        None
    }
}

/// `bytes`, preceded by an escape when Alt is held.
pub open spec fn alt_prefixed(alt: bool, bytes: Seq<u8>) -> Seq<u8> {
    if alt {
        seq![ESC] + bytes
    } else {
        bytes
    }
}

/// `ESC [`, then `1;` and the modifier parameter when there is one, then
/// the final bytes.
pub open spec fn csi_seq(suffix: Seq<u8>, modifier: Option<u8>) -> Seq<u8> {
    match modifier {
        Some(m) => seq![ESC, 0x5b, 0x31, 0x3b] + decimal(m as nat) + suffix,
        None => seq![ESC, 0x5b] + suffix,
    }
}

/// `ESC [`, the key number, then `;` and the modifier parameter when there
/// is one, then `~`.
pub open spec fn tilde_seq(num: u8, modifier: Option<u8>) -> Seq<u8> {
    match modifier {
        Some(m) => seq![ESC, 0x5b] + decimal(num as nat) + seq![0x3b] + decimal(m as nat) + seq![
            0x7e,
        ],
        None => seq![ESC, 0x5b] + decimal(num as nat) + seq![0x7e],
    }
}

/// `ESC O` and the final bytes without modifiers; the numbered `~` form
/// with them.
pub open spec fn ss3_or_csi_seq(ss3_suffix: Seq<u8>, csi_num: u8, modifier: Option<u8>) -> Seq<u8> {
    match modifier {
        Some(_) => tilde_seq(csi_num, modifier),
        None => seq![ESC, 0x4f] + ss3_suffix,
    }
}

/// The bytes a named key sends, if any.
pub open spec fn named_key_bytes(key: NamedKey, m: Modifiers) -> Option<Seq<u8>> {
    let p = modifier_param_of(m);
    match key {
        NamedKey::Enter => Some(seq![0x0d]),
        NamedKey::Backspace => if m.ctrl {
            Some(seq![0x08])
        } else if m.alt {
            Some(seq![ESC, 0x7f])
        } else {
            Some(seq![0x7f])
        },
        NamedKey::Tab => if m.shift {
            Some(seq![ESC, 0x5b, 0x5a])
        } else {
            Some(seq![0x09])
        },
        NamedKey::Escape => Some(seq![ESC]),
        NamedKey::ArrowUp => Some(csi_seq(seq![0x41], p)),
        NamedKey::ArrowDown => Some(csi_seq(seq![0x42], p)),
        NamedKey::ArrowRight => Some(csi_seq(seq![0x43], p)),
        NamedKey::ArrowLeft => Some(csi_seq(seq![0x44], p)),
        NamedKey::Home => Some(csi_seq(seq![0x48], p)),
        NamedKey::End => Some(csi_seq(seq![0x46], p)),
        NamedKey::PageUp => Some(tilde_seq(5, p)),
        NamedKey::PageDown => Some(tilde_seq(6, p)),
        NamedKey::Insert => Some(tilde_seq(2, p)),
        NamedKey::Delete => Some(tilde_seq(3, p)),
        NamedKey::F1 => Some(ss3_or_csi_seq(seq![0x50], 11, p)),
        NamedKey::F2 => Some(ss3_or_csi_seq(seq![0x51], 12, p)),
        NamedKey::F3 => Some(ss3_or_csi_seq(seq![0x52], 13, p)),
        NamedKey::F4 => Some(ss3_or_csi_seq(seq![0x53], 14, p)),
        NamedKey::F5 => Some(tilde_seq(15, p)),
        NamedKey::F6 => Some(tilde_seq(17, p)),
        NamedKey::F7 => Some(tilde_seq(18, p)),
        NamedKey::F8 => Some(tilde_seq(19, p)),
        NamedKey::F9 => Some(tilde_seq(20, p)),
        NamedKey::F10 => Some(tilde_seq(21, p)),
        NamedKey::F11 => Some(tilde_seq(23, p)),
        NamedKey::F12 => Some(tilde_seq(24, p)),
        NamedKey::Other => None,
    }
}

/// Whether `c` is an ASCII letter.
pub open spec fn is_ascii_letter(c: char) -> bool {
    ('a' <= c && c <= 'z') || ('A' <= c && c <= 'Z')
}

/// The control character of an ASCII letter: its place in the alphabet,
/// whatever its case.
pub open spec fn ctrl_letter_code(c: char) -> u8
    recommends
        is_ascii_letter(c),
{
    if 'a' <= c && c <= 'z' {
        (c as int - 'a' as int + 1) as u8
    } else {
        (c as int - 'A' as int + 1) as u8
    }
}

/// The control character that Ctrl sends with one of the punctuation and
/// digit keys that have one.
pub open spec fn ctrl_symbol_code(c: char) -> Option<u8> {
    if c == '[' || c == '3' {
        Some(0x1b)
    } else if c == '\\' || c == '4' {
        Some(0x1c)
    } else if c == ']' || c == '5' {
        Some(0x1d)
    } else if c == '6' {
        Some(0x1e)
    } else if c == '/' || c == '7' {
        Some(0x1f)
    } else if c == '2' || c == ' ' || c == '@' {
        Some(0x00)
    } else {
        None
    }
}

/// The bytes a key press sends to the shell, if any. With Ctrl (and not
/// Shift) a letter sends its control character and some symbols theirs; an
/// empty text then sends nothing. Otherwise the text is sent as UTF-8.
/// Alt prefixes an escape.
pub open spec fn key_bytes(key: Key, m: Modifiers) -> Option<Seq<u8>> {
    match key {
        Key::Character(c) => {
            let text = c@;
            if m.ctrl && !m.shift {
                if text.len() == 0 {
                    None
                } else if is_ascii_letter(text[0]) {
                    Some(alt_prefixed(m.alt, seq![ctrl_letter_code(text[0])]))
                } else if ctrl_symbol_code(text[0]) is Some {
                    Some(alt_prefixed(m.alt, seq![ctrl_symbol_code(text[0])->0]))
                } else {
                    Some(alt_prefixed(m.alt, encode_utf8(text)))
                }
            } else {
                Some(alt_prefixed(m.alt, encode_utf8(text)))
            }
        },
        Key::Named(named) => named_key_bytes(named, m),
        Key::Other => None,
    }
}

fn push_bytes(v: &mut Vec<u8>, bytes: &[u8])
    ensures
        final(v)@ == old(v)@ + bytes@,
{
    let mut i: usize = 0;
    while i < bytes.len()
        invariant
            i <= bytes@.len(),
            v@ == old(v)@ + bytes@.take(i as int),
        decreases bytes@.len() - i,
    {
        v.push(bytes[i]);
        i = i + 1;
        assert(bytes@.take(i as int) =~= bytes@.take(i - 1).push(bytes@[i - 1]));
    }
    assert(bytes@.take(bytes@.len() as int) =~= bytes@);
}

/// Append the decimal digits of `n`.
fn push_decimal(v: &mut Vec<u8>, n: u8)
    ensures
        final(v)@ == old(v)@ + decimal(n as nat),
{
    proof {
        reveal_with_fuel(decimal, 3);
    }
    if n >= 100 {
        v.push(48 + n / 100);
    }
    if n >= 10 {
        v.push(48 + (n / 10) % 10);
    }
    v.push(48 + n % 10);
    proof {
        if n >= 100 {
            assert(decimal(n as nat / 10) == decimal(n as nat / 100).push(
                (48 + (n as nat / 10) % 10) as u8,
            ));
        }
    }
    assert(v@ =~= old(v)@ + decimal(n as nat));
}

/// The modifier parameter of the xterm encoding, if any modifier is held.
pub fn modifier_param(m: Modifiers) -> (p: Option<u8>)
    ensures
        p == modifier_param_of(m),
{
    if m.ctrl || m.shift || m.alt {
        let s: u8 = if m.shift {
            1
        } else {
            0
        };
        let a: u8 = if m.alt {
            2
        } else {
            0
        };
        let c: u8 = if m.ctrl {
            4
        } else {
            0
        };
        Some(1 + s + a + c)
    } else {
        None
    }
}

/// `bytes`, with an escape in front when Alt is held.
pub fn maybe_alt(alt: bool, bytes: &[u8]) -> (v: Vec<u8>)
    ensures
        v@ == alt_prefixed(alt, bytes@),
{
    let mut v: Vec<u8> = Vec::new();
    if alt {
        v.push(ESC);
    }
    push_bytes(&mut v, bytes);
    assert(v@ =~= alt_prefixed(alt, bytes@));
    v
}

/// A CSI sequence with an optional modifier parameter.
pub fn csi_mod(suffix: &[u8], modifier: Option<u8>) -> (seq: Vec<u8>)
    ensures
        seq@ == csi_seq(suffix@, modifier),
{
    let mut seq = vec![ESC, 0x5b];
    if let Some(m) = modifier {
        seq.push(0x31);
        seq.push(0x3b);
        push_decimal(&mut seq, m);
    }
    push_bytes(&mut seq, suffix);
    assert(seq@ =~= csi_seq(suffix@, modifier));
    seq
}

/// A numbered `~` sequence with an optional modifier parameter.
pub fn tilde_mod(num: u8, modifier: Option<u8>) -> (seq: Vec<u8>)
    ensures
        seq@ == tilde_seq(num, modifier),
{
    let mut seq = vec![ESC, 0x5b];
    push_decimal(&mut seq, num);
    if let Some(m) = modifier {
        seq.push(0x3b);
        push_decimal(&mut seq, m);
    }
    seq.push(0x7e);
    assert(seq@ =~= tilde_seq(num, modifier));
    seq
}

/// An SS3 sequence without modifiers, the numbered form with them.
pub fn ss3_or_csi(ss3_suffix: &[u8], csi_num: u8, modifier: Option<u8>) -> (seq: Vec<u8>)
    ensures
        seq@ == ss3_or_csi_seq(ss3_suffix@, csi_num, modifier),
{
    if modifier.is_some() {
        tilde_mod(csi_num, modifier)
    } else {
        let mut seq = vec![ESC, 0x4f];
        push_bytes(&mut seq, ss3_suffix);
        assert(seq@ =~= ss3_or_csi_seq(ss3_suffix@, csi_num, modifier));
        seq
    }
}

/// The bytes a named key sends, if any.
pub fn named_key_sequence(key: NamedKey, ctrl: bool, shift: bool, alt: bool) -> (out: Option<
    Vec<u8>,
>)
    ensures
        out matches Some(v) ==> named_key_bytes(key, Modifiers { ctrl, alt, shift }) == Some(v@),
        out is None <==> named_key_bytes(key, Modifiers { ctrl, alt, shift }) is None,
{
    let p = modifier_param(Modifiers { ctrl, alt, shift });
    match key {
        NamedKey::Enter => Some(vec![0x0d]),
        NamedKey::Backspace => {
            if ctrl {
                Some(vec![0x08])
            } else if alt {
                Some(vec![ESC, 0x7f])
            } else {
                Some(vec![0x7f])
            }
        },
        NamedKey::Tab => {
            if shift {
                Some(vec![ESC, 0x5b, 0x5a])
            } else {
                Some(vec![0x09])
            }
        },
        NamedKey::Escape => Some(vec![ESC]),
        NamedKey::ArrowUp => Some(csi_mod(&[0x41], p)),
        NamedKey::ArrowDown => Some(csi_mod(&[0x42], p)),
        NamedKey::ArrowRight => Some(csi_mod(&[0x43], p)),
        NamedKey::ArrowLeft => Some(csi_mod(&[0x44], p)),
        NamedKey::Home => Some(csi_mod(&[0x48], p)),
        NamedKey::End => Some(csi_mod(&[0x46], p)),
        NamedKey::PageUp => Some(tilde_mod(5, p)),
        NamedKey::PageDown => Some(tilde_mod(6, p)),
        NamedKey::Insert => Some(tilde_mod(2, p)),
        NamedKey::Delete => Some(tilde_mod(3, p)),
        NamedKey::F1 => Some(ss3_or_csi(&[0x50], 11, p)),
        NamedKey::F2 => Some(ss3_or_csi(&[0x51], 12, p)),
        NamedKey::F3 => Some(ss3_or_csi(&[0x52], 13, p)),
        NamedKey::F4 => Some(ss3_or_csi(&[0x53], 14, p)),
        NamedKey::F5 => Some(tilde_mod(15, p)),
        NamedKey::F6 => Some(tilde_mod(17, p)),
        NamedKey::F7 => Some(tilde_mod(18, p)),
        NamedKey::F8 => Some(tilde_mod(19, p)),
        NamedKey::F9 => Some(tilde_mod(20, p)),
        NamedKey::F10 => Some(tilde_mod(21, p)),
        NamedKey::F11 => Some(tilde_mod(23, p)),
        NamedKey::F12 => Some(tilde_mod(24, p)),
        NamedKey::Other => None,
    }
}

/// Translate a key press into the bytes to send to the PTY.
pub fn translate_key(key: &Key, modifiers: Modifiers) -> (out: Option<Vec<u8>>)
    ensures
        out matches Some(v) ==> key_bytes(*key, modifiers) == Some(v@),
        out is None <==> key_bytes(*key, modifiers) is None,
        key matches Key::Character(t) ==> (modifiers.ctrl && !modifiers.shift && t@.len() > 0 && (('a'
            <= t@[0] && t@[0] <= 'z') || ('A' <= t@[0] && t@[0] <= 'Z')) ==> (out matches Some(v) && v@
            == (if modifiers.alt {
            seq![27u8, ((if t@[0] <= 'Z' { t@[0] as int + 32 } else { t@[0] as int }) - 96) as u8]
        } else {
            seq![((if t@[0] <= 'Z' { t@[0] as int + 32 } else { t@[0] as int }) - 96) as u8]
        }))),
{
    proof {
        if let Key::Character(t) = key {
            if modifiers.ctrl && !modifiers.shift && t@.len() > 0 && (('a' <= t@[0] && t@[0] <= 'z')
                || ('A' <= t@[0] && t@[0] <= 'Z')) {
                lemma_ctrl_letter_sends_alphabet_position(*t, modifiers.alt);
            }
        }
    }
    let ctrl = modifiers.ctrl;
    let alt = modifiers.alt;
    let shift = modifiers.shift;
    match key {
        Key::Character(c) => {
            let s = c.as_str();
            if ctrl && !shift {
                if s.unicode_len() == 0 {
                    return None;
                }
                let ch = s.get_char(0);
                if ('a' <= ch && ch <= 'z') || ('A' <= ch && ch <= 'Z') {
                    let code: u8 = if 'a' <= ch && ch <= 'z' {
                        (ch as u32 - 'a' as u32 + 1) as u8
                    } else {
                        (ch as u32 - 'A' as u32 + 1) as u8
                    };
                    return Some(maybe_alt(alt, &[code]));
                }
                let symbol: Option<u8> = if ch == '[' || ch == '3' {
                    Some(0x1b)
                } else if ch == '\\' || ch == '4' {
                    Some(0x1c)
                } else if ch == ']' || ch == '5' {
                    Some(0x1d)
                } else if ch == '6' {
                    Some(0x1e)
                } else if ch == '/' || ch == '7' {
                    Some(0x1f)
                } else if ch == '2' || ch == ' ' || ch == '@' {
                    Some(0x00)
                } else {
                    None
                };
                if let Some(b) = symbol {
                    return Some(maybe_alt(alt, &[b]));
                }
            }
            Some(maybe_alt(alt, s.as_bytes()))
        },
        Key::Named(named) => named_key_sequence(*named, ctrl, shift, alt),
        Key::Other => None,
    }
}


/// Holding Alt changes what a character key sends only by a leading
/// escape: the bytes with Alt are an escape followed by the bytes without.
pub proof fn lemma_alt_prefixes_character_keys(text: String, ctrl: bool, shift: bool)
    ensures
        ({
            let with_alt = key_bytes(Key::Character(text), Modifiers { ctrl, alt: true, shift });
            let without = key_bytes(Key::Character(text), Modifiers { ctrl, alt: false, shift });
            &&& with_alt is Some <==> without is Some
            &&& without matches Some(b) ==> with_alt == Some(seq![ESC] + b)
        }),
{
}

/// The modifier parameter is present exactly when a modifier is held, lies
/// between 2 and 8, and tells the modifiers apart.
pub proof fn lemma_modifier_param_encodes_modifiers(m1: Modifiers, m2: Modifiers)
    ensures
        modifier_param_of(m1) is Some <==> (m1.ctrl || m1.alt || m1.shift),
        modifier_param_of(m1) matches Some(p) ==> 2 <= p <= 8,
        modifier_param_of(m1) == modifier_param_of(m2) ==> m1 == m2,
{
}

proof fn lemma_decimal_digits(n: nat)
    ensures
        decimal(n).len() >= 1,
        forall|i: int| 0 <= i < decimal(n).len() ==> 48 <= #[trigger] decimal(n)[i] <= 57,
        decimal_value(decimal(n)) == n,
    decreases n,
{
    if n >= 10 {
        lemma_decimal_digits(n / 10);
        let d = decimal(n / 10);
        let s = d.push((48 + n % 10) as u8);
        assert(s.drop_last() =~= d);
        assert(s.last() == (48 + n % 10) as u8);
        assert(decimal_value(s) == decimal_value(d) * 10 + (n % 10));
        assert((n / 10) * 10 + n % 10 == n);
        assert forall|i: int| 0 <= i < s.len() implies 48 <= #[trigger] s[i] <= 57 by {
            if i < d.len() {
                assert(s[i] == d[i]);
            }
        }
    } else {
        let s = decimal(n);
        assert(s.drop_last() =~= Seq::<u8>::empty());
        assert(decimal_value(Seq::<u8>::empty()) == 0);
    }
}

/// The decimal form of a number is made of ASCII digits only, and reads
/// back as the number.
pub proof fn lemma_decimal_round_trip(n: nat)
    ensures
        forall|i: int| 0 <= i < decimal(n).len() ==> 48 <= #[trigger] decimal(n)[i] <= 57,
        decimal(n).len() >= 1,
        decimal_value(decimal(n)) == n,
{
    lemma_decimal_digits(n);
}

/// Ctrl with a letter sends the letter's place in the alphabet, from 1 to
/// 26, whether the letter is lower or upper case.
pub proof fn lemma_ctrl_letter_ignores_case(c: char)
    requires
        'a' <= c <= 'z',
    ensures
        is_ascii_letter(c),
        is_ascii_letter((c as int - 32) as char),
        ctrl_letter_code(c) == ctrl_letter_code((c as int - 32) as char),
        1 <= ctrl_letter_code(c) <= 26,
{
}

/// The cursor and editing keys send the xterm sequences: Enter CR, Tab HT
/// (ESC [ Z with Shift), Escape ESC, Backspace DEL (BS with Ctrl, ESC DEL
/// with Alt); the arrows ESC [ A/B/C/D, Home ESC [ H and End ESC [ F, and
/// with any modifier ESC [ 1 ; p and the same letter, where the digit p is
/// 1 + Shift + 2 Alt + 4 Ctrl.
pub proof fn lemma_cursor_key_sequences(m: Modifiers)
    ensures
        ({
        let any = m.ctrl || m.alt || m.shift;
        let p = (49 + (if m.shift { 1int } else { 0 }) + (if m.alt { 2int } else { 0 }) + (if m.ctrl {
            4int
        } else {
            0
        })) as u8;
        &&& named_key_bytes(NamedKey::Enter, m) == Some(seq![13u8])
        &&& named_key_bytes(NamedKey::Tab, m) == Some(if m.shift { seq![27u8, 91, 90] } else { seq![9u8] })
        &&& named_key_bytes(NamedKey::Escape, m) == Some(seq![27u8])
        &&& named_key_bytes(NamedKey::Backspace, m) == Some(if m.ctrl { seq![8u8] } else if m.alt { seq![27u8, 127] } else { seq![127u8] })
        &&& named_key_bytes(NamedKey::ArrowUp, m) == Some(if any { seq![27u8, 91, 49, 59, p, 65] } else { seq![27u8, 91, 65] })
        &&& named_key_bytes(NamedKey::ArrowDown, m) == Some(if any { seq![27u8, 91, 49, 59, p, 66] } else { seq![27u8, 91, 66] })
        &&& named_key_bytes(NamedKey::ArrowRight, m) == Some(if any { seq![27u8, 91, 49, 59, p, 67] } else { seq![27u8, 91, 67] })
        &&& named_key_bytes(NamedKey::ArrowLeft, m) == Some(if any { seq![27u8, 91, 49, 59, p, 68] } else { seq![27u8, 91, 68] })
        &&& named_key_bytes(NamedKey::Home, m) == Some(if any { seq![27u8, 91, 49, 59, p, 72] } else { seq![27u8, 91, 72] })
        &&& named_key_bytes(NamedKey::End, m) == Some(if any { seq![27u8, 91, 49, 59, p, 70] } else { seq![27u8, 91, 70] })
        &&& named_key_bytes(NamedKey::Other, m) is None
    }),
{
    reveal_with_fuel(decimal, 2);
}

/// Page Up/Down, Insert and Delete send ESC [ 5/6/2/3 ~; F1 to F4 send
/// ESC O P/Q/R/S; F5 to F12 send ESC [ 15, 17, 18, 19, 20, 21, 23, 24 ~.
/// With any modifier each sends ESC [ n ; p ~ (F1 to F4 with n = 11 to 14),
/// where the digit p is 1 + Shift + 2 Alt + 4 Ctrl.
pub proof fn lemma_function_key_sequences(m: Modifiers)
    ensures
        ({
        let any = m.ctrl || m.alt || m.shift;
        let p = (49 + (if m.shift { 1int } else { 0 }) + (if m.alt { 2int } else { 0 }) + (if m.ctrl {
            4int
        } else {
            0
        })) as u8;
        &&& named_key_bytes(NamedKey::PageUp, m) == Some(if any { seq![27u8, 91, 53, 59, p, 126] } else { seq![27u8, 91, 53, 126] })
        &&& named_key_bytes(NamedKey::PageDown, m) == Some(if any { seq![27u8, 91, 54, 59, p, 126] } else { seq![27u8, 91, 54, 126] })
        &&& named_key_bytes(NamedKey::Insert, m) == Some(if any { seq![27u8, 91, 50, 59, p, 126] } else { seq![27u8, 91, 50, 126] })
        &&& named_key_bytes(NamedKey::Delete, m) == Some(if any { seq![27u8, 91, 51, 59, p, 126] } else { seq![27u8, 91, 51, 126] })
        &&& named_key_bytes(NamedKey::F5, m) == Some(if any { seq![27u8, 91, 49, 53, 59, p, 126] } else { seq![27u8, 91, 49, 53, 126] })
        &&& named_key_bytes(NamedKey::F6, m) == Some(if any { seq![27u8, 91, 49, 55, 59, p, 126] } else { seq![27u8, 91, 49, 55, 126] })
        &&& named_key_bytes(NamedKey::F7, m) == Some(if any { seq![27u8, 91, 49, 56, 59, p, 126] } else { seq![27u8, 91, 49, 56, 126] })
        &&& named_key_bytes(NamedKey::F8, m) == Some(if any { seq![27u8, 91, 49, 57, 59, p, 126] } else { seq![27u8, 91, 49, 57, 126] })
        &&& named_key_bytes(NamedKey::F9, m) == Some(if any { seq![27u8, 91, 50, 48, 59, p, 126] } else { seq![27u8, 91, 50, 48, 126] })
        &&& named_key_bytes(NamedKey::F10, m) == Some(if any { seq![27u8, 91, 50, 49, 59, p, 126] } else { seq![27u8, 91, 50, 49, 126] })
        &&& named_key_bytes(NamedKey::F11, m) == Some(if any { seq![27u8, 91, 50, 51, 59, p, 126] } else { seq![27u8, 91, 50, 51, 126] })
        &&& named_key_bytes(NamedKey::F12, m) == Some(if any { seq![27u8, 91, 50, 52, 59, p, 126] } else { seq![27u8, 91, 50, 52, 126] })
        &&& named_key_bytes(NamedKey::F1, m) == Some(if any { seq![27u8, 91, 49, 49, 59, p, 126] } else { seq![27u8, 79, 80] })
        &&& named_key_bytes(NamedKey::F2, m) == Some(if any { seq![27u8, 91, 49, 50, 59, p, 126] } else { seq![27u8, 79, 81] })
        &&& named_key_bytes(NamedKey::F3, m) == Some(if any { seq![27u8, 91, 49, 51, 59, p, 126] } else { seq![27u8, 79, 82] })
        &&& named_key_bytes(NamedKey::F4, m) == Some(if any { seq![27u8, 91, 49, 52, 59, p, 126] } else { seq![27u8, 79, 83] })
    }),
{
    reveal_with_fuel(decimal, 3);
}

/// Ctrl with an ASCII letter, Shift not held, sends one byte: the letter's
/// place in the alphabet, counted from 1 for 'a' (or 'A'), after an escape
/// when Alt is held.
pub proof fn lemma_ctrl_letter_sends_alphabet_position(text: String, alt: bool)
    requires
        text@.len() > 0,
        ('a' <= text@[0] && text@[0] <= 'z') || ('A' <= text@[0] && text@[0] <= 'Z'),
    ensures
        ({
            let c = text@[0];
            let lower: int = if c <= 'Z' { c as int + 32 } else { c as int };
            let code = (lower - 96) as u8;
            key_bytes(Key::Character(text), Modifiers { ctrl: true, alt, shift: false }) == Some(
                if alt {
                    seq![27u8, code]
                } else {
                    seq![code]
                },
            )
        }),
{
    let c = text@[0];
    assert(alt_prefixed(alt, seq![ctrl_letter_code(c)]) =~= (if alt {
        seq![27u8, ctrl_letter_code(c)]
    } else {
        seq![ctrl_letter_code(c)]
    }));
}

} // verus!
