//! Resolving the monitored address and the interface that owns it.
//!
//! The caller asks the system for its interfaces and their addresses; the
//! functions here pick from what it found.

use vstd::prelude::*;

verus! {

/// The number of characters of `text` before its first `'/'`; its length
/// where it has none.
pub open spec fn slash_position(text: Seq<char>) -> int
    decreases text.len(),
{
    if text.len() == 0 || text[0] == '/' {
        0
    } else {
        1 + slash_position(text.drop_first())
    }
}

/// The address of a network written as `address/prefix-length`: what stands
/// before the first `'/'`, or all of `text` where it has none.
pub open spec fn host_part(text: Seq<char>) -> Seq<char> {
    text.take(slash_position(text))
}

/// Whether `address` is one of `addresses`.
pub open spec fn has_address(addresses: Seq<String>, address: Seq<char>) -> bool {
    exists|k: int| 0 <= k < addresses.len() && (#[trigger] addresses[k])@ == address
}

/// A position reached without meeting `'/'`, at which `text` ends or has a
/// `'/'`, is the slash position.
proof fn lemma_slash_position(text: Seq<char>, position: int)
    requires
        0 <= position <= text.len(),
        forall|k: int| 0 <= k < position ==> text[k] != '/',
        position == text.len() || text[position] == '/',
    ensures
        slash_position(text) == position,
    decreases text.len(),
{
    if position > 0 {
        let rest = text.drop_first();
        assert forall|k: int| 0 <= k < position - 1 implies rest[k] != '/' by {
            assert(rest[k] == text[k + 1]);
        }
        lemma_slash_position(rest, position - 1);
    }
}

/// Strips the prefix length from a network written as
/// `address/prefix-length`.
pub fn address_of(network: &str) -> (address: String)
    ensures
        address@ == host_part(network@),
{
    let length = network.unicode_len();
    let mut position: usize = 0;
    while position < length && network.get_char(position) != '/'
        invariant
            length == network@.len(),
            position <= length,
            forall|k: int| 0 <= k < position ==> network@[k] != '/',
        decreases length - position,
    {
        position += 1;
    }
    proof {
        lemma_slash_position(network@, position as int);
    }
    network.substring_char(0, position).to_owned()
}

/// Whether `address` is one of `addresses`.
pub fn owns_address(addresses: &Vec<String>, address: &String) -> (found: bool)
    ensures
        found == has_address(addresses@, address@),
{
    let mut k: usize = 0;
    while k < addresses.len()
        invariant
            k <= addresses@.len(),
            forall|j: int| 0 <= j < k ==> (#[trigger] addresses@[j])@ != address@,
        decreases addresses@.len() - k,
    {
        if addresses[k] == *address {
            return true;
        }
        k += 1;
    }
    false
}

/// Finds the first interface that owns `address`, each interface given by
/// the list of its addresses.
pub fn interface_with_address(interfaces: &Vec<Vec<String>>, address: &String) -> (found: Option<
    usize,
>)
    ensures
        match found {
            Some(index) => {
                &&& index < interfaces@.len()
                &&& has_address(interfaces@[index as int]@, address@)
                &&& forall|j: int|
                    0 <= j < index ==> !has_address((#[trigger] interfaces@[j])@, address@)
            },
            None => forall|j: int|
                0 <= j < interfaces@.len() ==> !has_address((#[trigger] interfaces@[j])@, address@),
        },
{
    let mut index: usize = 0;
    while index < interfaces.len()
        invariant
            index <= interfaces@.len(),
            forall|j: int| 0 <= j < index ==> !has_address((#[trigger] interfaces@[j])@, address@),
        decreases interfaces@.len() - index,
    {
        if owns_address(&interfaces[index], address) {
            return Some(index);
        }
        index += 1;
    }
    None
}

} // verus!
