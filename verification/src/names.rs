//! Derivation of the named OS resources bound to a channel.
//!
//! Each channel id owns one mutex, a "frame wanted" event, a "frame sent"
//! event and a shared-memory segment.  Their names are a pure function of the
//! id: id 0 uses the base names, ids 1 through 9 append the matching digit,
//! and larger ids are rejected — the single-character suffix scheme cannot
//! express them.

use vstd::prelude::*;

verus! {

use vstd::string::StringExecFns;

use crate::Error;

/// Largest channel id the single-digit resource-naming scheme supports.
pub const MAX_NAMED_CAP_NUM: u32 = 9;

/// The decimal digit character for `d`, defined for `0 <= d <= 9`.
pub open spec fn digit_char(d: int) -> char {
    if d == 0 {
        '0'
    } else if d == 1 {
        '1'
    } else if d == 2 {
        '2'
    } else if d == 3 {
        '3'
    } else if d == 4 {
        '4'
    } else if d == 5 {
        '5'
    } else if d == 6 {
        '6'
    } else if d == 7 {
        '7'
    } else if d == 8 {
        '8'
    } else {
        '9'
    }
}

/// The resource name derived from `base` for channel `id`: the base name for
/// id 0, the base name with the id's digit appended for ids 1 through 9.
pub open spec fn derived_name(base: Seq<char>, id: int) -> Seq<char> {
    if id == 0 {
        base
    } else {
        base.push(digit_char(id))
    }
}

/// The names of the four OS resources that make up one channel.
pub struct ResourceNames {
    pub mutex_name: String,
    pub want_event_name: String,
    pub sent_event_name: String,
    pub memory_name: String,
}

impl ResourceNames {
    /// The four names are exactly those derived from the channel id.
    pub open spec fn wf_for(self, id: int) -> bool {
        &&& self.mutex_name@ == derived_name("UnityCapture_Mutx"@, id)
        &&& self.want_event_name@ == derived_name("UnityCapture_Want"@, id)
        &&& self.sent_event_name@ == derived_name("UnityCapture_Sent"@, id)
        &&& self.memory_name@ == derived_name("UnityCapture_Data"@, id)
    }
}

/// The one-character string holding the digit of `d`, for `1 <= d <= 9`.
fn digit_str(d: u32) -> (r: &'static str)
    requires
        1 <= d <= 9,
    ensures
        r@ == seq![digit_char(d as int)],
{
    proof {
        reveal_strlit("1");
        reveal_strlit("2");
        reveal_strlit("3");
        reveal_strlit("4");
        reveal_strlit("5");
        reveal_strlit("6");
        reveal_strlit("7");
        reveal_strlit("8");
        reveal_strlit("9");
    }
    let r: &'static str = match d {
        1 => "1",
        2 => "2",
        3 => "3",
        4 => "4",
        5 => "5",
        6 => "6",
        7 => "7",
        8 => "8",
        _ => "9",
    };
    proof {
        assert(r@ =~= seq![digit_char(d as int)]);
    }
    r
}

/// `base` with the digit of `d` appended, for `1 <= d <= 9`.
fn suffixed(base: &str, d: u32) -> (r: String)
    requires
        1 <= d <= 9,
    ensures
        r@ == base@.push(digit_char(d as int)),
{
    let mut s = base.to_owned();
    s.append(digit_str(d));
    proof {
        assert(s@ =~= base@.push(digit_char(d as int)));
    }
    s
}

/// Derives the names of the channel's four OS resources from its id.
///
/// Id 0 yields the unsuffixed base names; ids 1 through 9 yield the base
/// names with the matching digit appended; every larger id is rejected with
/// `Error::CapNumNotSupported` — the scheme does not wrap or clamp.
pub fn resource_names(cap_num: u32) -> (r: Result<ResourceNames, Error>)
    ensures
        cap_num <= MAX_NAMED_CAP_NUM ==> (r matches Ok(n) && n.wf_for(cap_num as int)),
        cap_num > MAX_NAMED_CAP_NUM ==> r == Err::<ResourceNames, Error>(
            Error::CapNumNotSupported,
        ),
{
    if cap_num > MAX_NAMED_CAP_NUM {
        Err(Error::CapNumNotSupported)
    } else if cap_num == 0 {
        Ok(ResourceNames {
            mutex_name: "UnityCapture_Mutx".to_owned(),
            want_event_name: "UnityCapture_Want".to_owned(),
            sent_event_name: "UnityCapture_Sent".to_owned(),
            memory_name: "UnityCapture_Data".to_owned(),
        })
    } else {
        Ok(ResourceNames {
            mutex_name: suffixed("UnityCapture_Mutx", cap_num),
            want_event_name: suffixed("UnityCapture_Want", cap_num),
            sent_event_name: suffixed("UnityCapture_Sent", cap_num),
            memory_name: suffixed("UnityCapture_Data", cap_num),
        })
    }
}

} // verus!
