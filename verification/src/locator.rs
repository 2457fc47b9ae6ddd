//! Locating a channel id for a human-readable device name.
//!
//! Discovery walks the candidate channel ids.  For each id a registry lookup
//! key is computed by a fixed offset formula; an external name registry maps
//! that key to the device's friendly name.  The lookup itself is OS work done
//! by the caller — the key derivation and the choice of the first matching id
//! are decided here.

use vstd::prelude::*;

verus! {

use vstd::string::StringExecFns;

use crate::Error;

/// Base value of the registry-key offset formula.
pub const GUID_OFFSET: u8 = 0x10;

/// Number of candidate channel ids that discovery walks.
pub const MAX_CAPNUM: u32 = 74;

/// The uppercase hexadecimal digit character for `d`, defined for
/// `0 <= d <= 15`.
pub open spec fn hex_char(d: int) -> char {
    if d == 0 {
        '0'
    } else if d == 1 {
        '1'
    } else if d == 2 {
        '2'
    } else if d == 3 {
        '3'
    } else if d == 4 {
        '4'
    } else if d == 5 {
        '5'
    } else if d == 6 {
        '6'
    } else if d == 7 {
        '7'
    } else if d == 8 {
        '8'
    } else if d == 9 {
        '9'
    } else if d == 10 {
        'A'
    } else if d == 11 {
        'B'
    } else if d == 12 {
        'C'
    } else if d == 13 {
        'D'
    } else if d == 14 {
        'E'
    } else {
        'F'
    }
}

/// The byte that ends the registry key of channel id `id`: the fixed offset
/// plus the id, skipping one slot for nonzero ids — the slot right after
/// the offset is reserved by the driver.
pub open spec fn spec_key_byte(id: int) -> int {
    GUID_OFFSET + id + (if id != 0 { 1int } else { 0int })
}

/// The full registry lookup key of channel id `id`: the class-id prefix,
/// the key byte as two uppercase hexadecimal digits, and the closing brace.
pub open spec fn spec_registry_key(id: int) -> Seq<char> {
    "CLSID\\{5C2CD55C-92AD-4999-8666-912BD3E700"@ + seq![
        hex_char(spec_key_byte(id) / 16),
        hex_char(spec_key_byte(id) % 16),
    ] + "}"@
}

/// The one-character string holding the uppercase hexadecimal digit of `d`,
/// for `0 <= d <= 15`.
fn hex_str(d: u8) -> (r: &'static str)
    requires
        d < 16,
    ensures
        r@ == seq![hex_char(d as int)],
{
    proof {
        reveal_strlit("0");
        reveal_strlit("1");
        reveal_strlit("2");
        reveal_strlit("3");
        reveal_strlit("4");
        reveal_strlit("5");
        reveal_strlit("6");
        reveal_strlit("7");
        reveal_strlit("8");
        reveal_strlit("9");
        reveal_strlit("A");
        reveal_strlit("B");
        reveal_strlit("C");
        reveal_strlit("D");
        reveal_strlit("E");
        reveal_strlit("F");
    }
    let r: &'static str = match d {
        0 => "0",
        1 => "1",
        2 => "2",
        3 => "3",
        4 => "4",
        5 => "5",
        6 => "6",
        7 => "7",
        8 => "8",
        9 => "9",
        10 => "A",
        11 => "B",
        12 => "C",
        13 => "D",
        14 => "E",
        _ => "F",
    };
    proof {
        assert(r@ =~= seq![hex_char(d as int)]);
    }
    r
}

/// Computes the registry lookup key for channel id `cap_num`.
///
/// The key names the class-id registry entry whose default value is the
/// device's friendly name; the caller queries the external name registry
/// with it.
pub fn capture_registry_key(cap_num: u32) -> (r: String)
    requires
        cap_num < MAX_CAPNUM,
    ensures
        r@ == spec_registry_key(cap_num as int),
{
    let b: u8 = if cap_num == 0 {
        GUID_OFFSET
    } else {
        GUID_OFFSET + cap_num as u8 + 1
    };
    let mut s = "CLSID\\{5C2CD55C-92AD-4999-8666-912BD3E700".to_owned();
    s.append(hex_str(b / 16));
    s.append(hex_str(b % 16));
    s.append("}");
    proof {
        assert(s@ =~= spec_registry_key(cap_num as int));
    }
    s
}

/// Channel id `i` answers to `device`: the registry lookup for id `i`
/// returned a friendly name equal to the requested device name.
pub open spec fn name_matches(names: Seq<Option<String>>, device: Seq<char>, i: int) -> bool {
    names[i] matches Some(n) && n@ == device
}

/// Finds the channel id of the device named `device`.
///
/// `registry_names` holds, for each candidate id in order, the friendly name
/// the external registry lookup returned for that id's key, or `None` where
/// the lookup found nothing.  The first id whose name equals `device` wins;
/// when none matches, discovery fails with `Error::UnityCaptureNotFound`.
pub fn find_channel(device: &String, registry_names: &Vec<Option<String>>) -> (r: Result<
    u32,
    Error,
>)
    requires
        registry_names@.len() == MAX_CAPNUM as int,
    ensures
        (r matches Ok(i) ==> {
            &&& 0 <= i < MAX_CAPNUM
            &&& name_matches(registry_names@, device@, i as int)
            &&& forall|j: int|
                0 <= j < i ==> !name_matches(registry_names@, device@, j)
        }),
        (r matches Err(e) ==> {
            &&& e == Error::UnityCaptureNotFound
            &&& forall|j: int|
                0 <= j < MAX_CAPNUM ==> !name_matches(registry_names@, device@, j)
        }),
{
    let mut i: usize = 0;
    while i < MAX_CAPNUM as usize
        invariant
            registry_names@.len() == MAX_CAPNUM as int,
            i <= MAX_CAPNUM,
            forall|j: int| 0 <= j < i ==> !name_matches(registry_names@, device@, j),
        decreases MAX_CAPNUM as int - i,
    {
        match &registry_names[i] {
            Some(n) => {
                if n.eq(device) {
                    proof {
                        assert(name_matches(registry_names@, device@, i as int));
                    }
                    return Ok(i as u32);
                }
                proof {
                    assert(!name_matches(registry_names@, device@, i as int));
                }
            },
            None => {
                proof {
                    assert(!name_matches(registry_names@, device@, i as int));
                }
            },
        }
        i = i + 1;
    }
    Err(Error::UnityCaptureNotFound)
}

} // verus!
