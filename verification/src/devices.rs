//! Input-device selection over device names.
//!
//! Device enumeration belongs to the unverified edge of the program; it
//! hands this module the plain list of device names, and gets back which
//! device to open. Virtual sinks are filtered out, then the user's choice,
//! a preferred keyword, or the first remaining device wins, in that order.

use vstd::prelude::*;

use crate::text::contains_seq;
use crate::text::contains_str;
use crate::text::lower_of;
use crate::text::to_lower;

verus! {

/// Why no input device could be selected or named.
#[derive(Clone, Copy, Debug, PartialEq, Eq, Structural)]
pub enum VoiceError {
    /// No usable input device was found.
    NoInputDevice,
    /// A device exists but its name could not be read.
    InvalidDeviceName,
}

/// The lowercased device name names a virtual sink rather than a capture
/// device.
pub open spec fn is_virtual_name(lowered: Seq<char>) -> bool {
    ||| contains_seq(lowered, "pulse"@)
    ||| contains_seq(lowered, "pipewire"@)
    ||| contains_seq(lowered, "jack"@)
    ||| contains_seq(lowered, "oss"@)
    ||| contains_seq(lowered, "null"@)
}

/// Whether the device name, lowercased, names a virtual sink.
pub fn is_virtual_input(name: &str) -> (r: bool)
    ensures
        r == is_virtual_name(lower_of(name@)),
{
    let lowered = to_lower(name);
    contains_str(lowered.as_str(), "pulse")
        || contains_str(lowered.as_str(), "pipewire")
        || contains_str(lowered.as_str(), "jack")
        || contains_str(lowered.as_str(), "oss")
        || contains_str(lowered.as_str(), "null")
}

/// The device names that are not virtual sinks, in their original order.
pub fn filter_input_names(names: &Vec<String>) -> (r: Vec<String>)
    ensures
        r@ == names@.filter(|n: String| !is_virtual_name(lower_of(n@))),
{
    broadcast use vstd::seq_lib::group_seq_lib_default;

    let mut out: Vec<String> = Vec::new();
    let mut i: usize = 0;
    while i < names.len()
        invariant
            i <= names@.len(),
            out@ == names@.subrange(0, i as int).filter(
                (|n: String| !is_virtual_name(lower_of(n@))),
            ),
        decreases names@.len() - i,
    {
        proof {
            assert(names@.subrange(0, i as int + 1)
                =~= names@.subrange(0, i as int) + seq![names@[i as int]]);
        }
        if !is_virtual_input(names[i].as_str()) {
            out.push(names[i].clone());
        }
        proof {
            let p = (|n: String| !is_virtual_name(lower_of(n@)));
            Seq::filter_distributes_over_add(
                names@.subrange(0, i as int),
                seq![names@[i as int]],
                p,
            );
            reveal_with_fuel(Seq::filter, 2);
            assert(seq![names@[i as int]].drop_last() =~= Seq::<String>::empty());
        }
        i = i + 1;
    }
    proof {
        assert(names@.subrange(0, names@.len() as int) =~= names@);
    }
    out
}

/// The device name, lowercased, contains the lowercased wanted name.
pub open spec fn name_matches(name: Seq<char>, wanted: Seq<char>) -> bool {
    contains_seq(lower_of(name), lower_of(wanted))
}

/// The device name, lowercased, contains one of the keywords that mark a
/// likely real microphone.
pub open spec fn preferred_name(name: Seq<char>) -> bool {
    ||| contains_seq(lower_of(name), "default"@)
    ||| contains_seq(lower_of(name), "mic"@)
    ||| contains_seq(lower_of(name), "intel"@)
    ||| contains_seq(lower_of(name), "usb"@)
}

/// No name in the list matches the wanted name, or nothing was wanted.
pub open spec fn no_chosen_match(names: Seq<String>, chosen: Option<&str>) -> bool {
    match chosen {
        Some(c) => forall|j: int| 0 <= j < names.len() ==> !name_matches(names[j]@, c@),
        None => true,
    }
}

fn name_is_preferred(name: &str) -> (r: bool)
    ensures
        r == preferred_name(name@),
{
    let lowered = to_lower(name);
    contains_str(lowered.as_str(), "default")
        || contains_str(lowered.as_str(), "mic")
        || contains_str(lowered.as_str(), "intel")
        || contains_str(lowered.as_str(), "usb")
}

/// Select which of the given input devices to open: the first whose name
/// contains the chosen name (case-insensitively), else the first whose name
/// contains a preferred keyword, else the first device of all. Fails exactly
/// when the list is empty.
pub fn select_input(names: &Vec<String>, chosen: Option<&str>) -> (r: Result<usize, VoiceError>)
    ensures
        r matches Ok(i) ==> i < names@.len(),
        (match chosen {
            Some(c) => exists|j: int| 0 <= j < names@.len() && name_matches(names@[j]@, c@),
            None => false,
        }) ==> {
            &&& r is Ok
            &&& name_matches(names@[r.unwrap() as int]@, chosen.unwrap()@)
            &&& forall|j: int| 0 <= j < r.unwrap()
                ==> !name_matches(names@[j]@, chosen.unwrap()@)
        },
        (no_chosen_match(names@, chosen)
            && exists|j: int| 0 <= j < names@.len() && preferred_name(names@[j]@)) ==> {
            &&& r is Ok
            &&& preferred_name(names@[r.unwrap() as int]@)
            &&& forall|j: int| 0 <= j < r.unwrap() ==> !preferred_name(names@[j]@)
        },
        (no_chosen_match(names@, chosen)
            && (forall|j: int| 0 <= j < names@.len() ==> !preferred_name(names@[j]@))
            && names@.len() > 0) ==> r == Ok::<usize, VoiceError>(0usize),
        r is Err <==> names@.len() == 0,
        r matches Err(e) ==> e == VoiceError::NoInputDevice,
{
    if let Some(c) = chosen {
        let wanted = to_lower(c);
        let mut i: usize = 0;
        while i < names.len()
            invariant
                i <= names@.len(),
                chosen == Some(c),
                wanted@ == lower_of(c@),
                forall|k: int| 0 <= k < i ==> !name_matches(names@[k]@, c@),
            decreases names@.len() - i,
        {
            let lowered = to_lower(names[i].as_str());
            if contains_str(lowered.as_str(), wanted.as_str()) {
                return Ok(i);
            }
            i = i + 1;
        }
    }
    let mut i: usize = 0;
    while i < names.len()
        invariant
            i <= names@.len(),
            no_chosen_match(names@, chosen),
            forall|k: int| 0 <= k < i ==> !preferred_name(names@[k]@),
        decreases names@.len() - i,
    {
        if name_is_preferred(names[i].as_str()) {
            return Ok(i);
        }
        i = i + 1;
    }
    if names.len() > 0 {
        Ok(0)
    } else {
        Err(VoiceError::NoInputDevice)
    }
}

} // verus!
