//! Mount flags. The flag word is the one that the `nix` crate hands to the
//! kernel; the library reasons about it as the set of flags that it holds.
//!
//! Nothing about `nix` is proved here. The functions marked as trusted state
//! what its source shows, and the rest of the library is proved from that.

use nix::mount::MsFlags;
use vstd::prelude::*;

verus! {

/// The kernel's bit for a bind mount.
pub const MS_BIND: u64 = 0x1000;

/// The kernel's bit that extends a bind mount to the mounts below its source.
pub const MS_REC: u64 = 0x4000;

/// The kernel's bit that makes a mount point private.
pub const MS_PRIVATE: u64 = 0x4_0000;

/// `nix::mount::MsFlags`, the flag word of the mount call. Its inside is not
/// visible here: what a word holds is known through [`flag_set`] alone.
#[verifier::external_type_specification]
#[verifier::external_body]
pub struct ExMsFlags(nix::mount::MsFlags);

/// The flags that a flag word holds, each given by its bit: a power of two
/// is in the set when that bit is set in the word. It has no definition; the
/// trusted functions below say what it is of the words that they return.
pub uninterp spec fn flag_set(flags: MsFlags) -> Set<u64>;

/// The flags of a mount that asks for nothing special: none.
pub open spec fn plain_flags() -> Set<u64> {
    Set::empty()
}

/// The flags of a bind mount: recursive, and made private so that mount
/// events do not travel between the sandbox and its host.
pub open spec fn bind_flags() -> Set<u64> {
    set![MS_BIND, MS_REC, MS_PRIVATE]
}

/// Calls `MsFlags::empty()`. Trusted: the word it returns has no bit set,
/// so it holds no flag.
#[verifier::external_body]
fn empty_word() -> (flags: MsFlags)
    ensures
        flag_set(flags) == Set::<u64>::empty(),
{
    MsFlags::empty()
}

/// Reads `MsFlags::MS_BIND`. Trusted: the word has the one bit `0x1000`,
/// which is the value of `MS_BIND` on Linux.
#[verifier::external_body]
fn bind_word() -> (flags: MsFlags)
    ensures
        flag_set(flags) == set![MS_BIND],
{
    MsFlags::MS_BIND
}

/// Reads `MsFlags::MS_REC`. Trusted: the word has the one bit `0x4000`,
/// which is the value of `MS_REC` on Linux.
#[verifier::external_body]
fn rec_word() -> (flags: MsFlags)
    ensures
        flag_set(flags) == set![MS_REC],
{
    MsFlags::MS_REC
}

/// Reads `MsFlags::MS_PRIVATE`. Trusted: the word has the one bit
/// `0x40000`, which is the value of `MS_PRIVATE` on Linux.
#[verifier::external_body]
fn private_word() -> (flags: MsFlags)
    ensures
        flag_set(flags) == set![MS_PRIVATE],
{
    MsFlags::MS_PRIVATE
}

/// Calls `MsFlags::union`, the bitwise or of two words. Trusted: the word it
/// returns holds the flags of both and no other.
#[verifier::external_body]
fn union_word(left: MsFlags, right: MsFlags) -> (flags: MsFlags)
    ensures
        flag_set(flags) == flag_set(left).union(flag_set(right)),
{
    left.union(right)
}

/// The flag word of a mount that asks for nothing special.
pub fn plain_mount() -> (flags: MsFlags)
    ensures
        flag_set(flags) == plain_flags(),
{
    empty_word()
}

/// The flag word of a recursive, private bind mount.
pub fn bind_mount() -> (flags: MsFlags)
    ensures
        flag_set(flags) == bind_flags(),
{
    let flags = union_word(union_word(bind_word(), rec_word()), private_word());
    flags
}

} // verus!
