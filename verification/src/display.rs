//! Texts shown on the bar.
//!
//! Each text is a function of the state it is derived from: the same state
//! gives the same text, and a reader of the bar sees whole texts only.

use vstd::prelude::*;
use vstd::string::StrSliceExecFns;
use vstd::string::StringExecFns;
use crate::registry::DeviceFacts;
use crate::registry::DeviceRegistry;

verus! {

/// The character that stands for the digit `d`.
pub open spec fn digit_char(d: nat) -> char {
    if d == 0 {
        '0'
    } else if d == 1 {
        '1'
    } else if d == 2 {
        '2'
    } else if d == 3 {
        '3'
    } else if d == 4 {
        '4'
    } else if d == 5 {
        '5'
    } else if d == 6 {
        '6'
    } else if d == 7 {
        '7'
    } else if d == 8 {
        '8'
    } else {
        '9'
    }
}

/// The decimal digits of `n`, most significant first, without leading zeros.
pub open spec fn decimal(n: nat) -> Seq<char>
    decreases n,
{
    if n < 10 {
        seq![digit_char(n)]
    } else {
        decimal(n / 10).push(digit_char(n % 10))
    }
}

/// The one-character text of a digit.
fn digit_text(d: u8) -> (text: &'static str)
    requires
        d < 10,
    ensures
        text@ == seq![digit_char(d as nat)],
{
    let text = match d {
        0 => "0",
        1 => "1",
        2 => "2",
        3 => "3",
        4 => "4",
        5 => "5",
        6 => "6",
        7 => "7",
        8 => "8",
        _ => "9",
    };
    proof {
        reveal_strlit("0");
        reveal_strlit("1");
        reveal_strlit("2");
        reveal_strlit("3");
        reveal_strlit("4");
        reveal_strlit("5");
        reveal_strlit("6");
        reveal_strlit("7");
        reveal_strlit("8");
        reveal_strlit("9");
        assert(text@ =~= seq![digit_char(d as nat)]);
    }
    text
}

/// Writes `n` in decimal.
pub fn decimal_text(n: u64) -> (text: String)
    ensures
        text@ == decimal(n as nat),
    decreases n,
{
    if n < 10 {
        let d: u8 = n as u8;
        String::from_str(digit_text(d))
    } else {
        let mut text = decimal_text(n / 10);
        let d: u8 = (n % 10) as u8;
        text.append(digit_text(d));
        text
    }
}

/// The letter that stands for a peripheral: the first character of its name,
/// or `D` where it has no name or an empty one.
pub open spec fn initial(name: Option<Seq<char>>) -> char {
    match name {
        Some(n) => if n.len() > 0 {
            n[0]
        } else {
            'D'
        },
        None => 'D',
    }
}

/// What is shown for one peripheral with a battery level: its letter and the
/// level.
pub open spec fn token(name: Option<Seq<char>>, level: u8) -> Seq<char> {
    seq![initial(name)] + decimal(level as nat)
}

/// The tokens of the peripherals whose battery level is known, in the order
/// of their records.
pub open spec fn tokens(devs: Seq<DeviceFacts>) -> Seq<Seq<char>>
    decreases devs.len(),
{
    if devs.len() == 0 {
        Seq::empty()
    } else {
        let before = tokens(devs.drop_last());
        match devs.last().battery_percentage {
            Some(level) => before.push(token(devs.last().name, level)),
            None => before,
        }
    }
}

/// The words with one space between each two.
pub open spec fn joined(words: Seq<Seq<char>>) -> Seq<char>
    decreases words.len(),
{
    if words.len() == 0 {
        Seq::empty()
    } else if words.len() == 1 {
        words[0]
    } else {
        joined(words.drop_last()) + seq![' '] + words.last()
    }
}

/// The Bluetooth text: the tokens of the peripherals whose battery level is
/// known, or `No BT` where there is none.
pub open spec fn bluetooth_summary(devs: Seq<DeviceFacts>) -> Seq<char> {
    if tokens(devs).len() == 0 {
        "No BT"@
    } else {
        joined(tokens(devs))
    }
}

/// The battery text: the level behind the battery sign, or nothing where the
/// level is not known.
pub open spec fn battery_summary(percentage: Option<u8>) -> Seq<char> {
    match percentage {
        Some(level) => "🔋 "@ + decimal(level as nat) + "%"@,
        None => Seq::empty(),
    }
}

/// Derives the battery text.
pub fn battery_text(percentage: Option<u8>) -> (text: String)
    ensures
        text@ == battery_summary(percentage),
{
    match percentage {
        Some(level) => {
            let mut text = String::from_str("🔋 ");
            let digits = decimal_text(level as u64);
            text.append(digits.as_str());
            text.append("%");
            text
        },
        None => String::new(),
    }
}

/// The one-character text of the letter that stands for a peripheral.
fn initial_text(name: &Option<String>) -> (text: &str)
    ensures
        text@ == seq![initial(crate::registry::text_view(*name))],
{
    let fallback = "D";
    proof {
        reveal_strlit("D");
        assert(fallback@ =~= seq!['D']);
    }
    match name {
        Some(n) => {
            let whole = n.as_str();
            if whole.is_empty() {
                fallback
            } else {
                let first = whole.substring_char(0, 1);
                assert(first@ =~= seq![n@[0]]);
                first
            }
        },
        None => fallback,
    }
}

/// Derives the Bluetooth text from the registry.
pub fn compute_bluetooth_display_string(devices: &DeviceRegistry) -> (text: String)
    ensures
        text@ == bluetooth_summary(devices@),
{
    let ghost devs = devices@;
    let mut text = String::new();
    let mut any = false;
    let mut i: usize = 0;
    assert(devs.take(0) =~= Seq::<DeviceFacts>::empty());
    while i < devices.len()
        invariant
            devs == devices@,
            i <= devs.len(),
            any == (tokens(devs.take(i as int)).len() > 0),
            text@ == joined(tokens(devs.take(i as int))),
        decreases devs.len() - i,
    {
        let device = devices.device(i);
        proof {
            let upto = devs.take(i as int + 1);
            assert(upto.drop_last() =~= devs.take(i as int));
            assert(upto.last() == devs[i as int]);
        }
        match device.battery_percentage {
            Some(level) => {
                let ghost before = tokens(devs.take(i as int));
                let ghost word = token(device@.name, level);
                if any {
                    text.append(" ");
                }
                text.append(initial_text(&device.device_name));
                let digits = decimal_text(level as u64);
                text.append(digits.as_str());
                proof {
                    reveal_strlit(" ");
                    assert(" "@ =~= seq![' ']);
                    let after = before.push(word);
                    assert(after.drop_last() =~= before);
                    assert(after.last() == word);
                    assert(tokens(devs.take(i as int + 1)) == after);
                    assert(text@ =~= joined(after));
                }
                any = true;
            },
            None => {},
        }
        i += 1;
    }
    assert(devs.take(i as int) =~= devs);
    if any {
        text
    } else {
        String::from_str("No BT")
    }
}

} // verus!
