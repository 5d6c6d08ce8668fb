//! The choice of the chat model by the memory of the machine.

use vstd::prelude::*;

verus! {

/// A tier of the configuration: machines with less memory than
/// `max_ram_bytes` get `model`; a bound of 0 sets no bound.
pub struct Tier {
    pub max_ram_bytes: u64,
    pub model: String,
}

/// Whether a machine with `ram` bytes of memory falls under a tier's bound.
pub open spec fn fits(t: Tier, ram: u64) -> bool {
    t.max_ram_bytes > 0 && ram < t.max_ram_bytes
}

/// The model taken when the configuration has no tier at all.
pub open spec fn fallback_model() -> Seq<char> {
    "llama3.2:3b"@
}

/// The chat model for a machine with `ram` bytes of memory: that of the
/// first tier whose bound the memory is under; when there is none, that of
/// the last tier; with no tiers, the fallback model.
pub open spec fn model_choice(tiers: Seq<Tier>, ram: u64, chosen: Seq<char>) -> bool {
    if exists|i: int| 0 <= i < tiers.len() && fits(#[trigger] tiers[i], ram) {
        exists|i: int|
            0 <= i < tiers.len() && fits(#[trigger] tiers[i], ram) && (forall|j: int|
                0 <= j < i ==> !fits(#[trigger] tiers[j], ram)) && chosen == tiers[i].model@
    } else if tiers.len() > 0 {
        chosen == tiers.last().model@
    } else {
        chosen == fallback_model()
    }
}

/// Picks the chat model for a machine with `ram` bytes of memory.
pub fn model_for_ram(ram: u64, tiers: &Vec<Tier>) -> (model: String)
    ensures
        model_choice(tiers@, ram, model@),
{
    let n: usize = tiers.len();
    let mut i: usize = 0;
    while i < n
        invariant
            n == tiers@.len(),
            i <= n,
            forall|j: int| 0 <= j < i ==> !fits(#[trigger] tiers@[j], ram),
        decreases n - i,
    {
        let t = &tiers[i];
        if t.max_ram_bytes > 0 && ram < t.max_ram_bytes {
            assert(fits(tiers@[i as int], ram));
            return t.model.clone();
        }
        i = i + 1;
    }
    if n > 0 {
        tiers[n - 1].model.clone()
    } else {
        String::from_str("llama3.2:3b")
    }
}

#[verifier::external_type_specification]
#[verifier::external_body]
pub struct ExSystem(sysinfo::System);

/// `sysinfo::System::new`: a handle on the machine's information, with
/// nothing loaded yet. Nothing is claimed of it.
#[verifier::external_body]
fn new_system() -> (sys: sysinfo::System) {
    sysinfo::System::new()
}

/// `sysinfo::System::refresh_memory`: loads the memory figures of the
/// machine. Nothing is claimed of them.
#[verifier::external_body]
fn refresh_memory(sys: &mut sysinfo::System) {
    sys.refresh_memory()
}

/// `sysinfo::System::total_memory`: the installed memory in bytes, as last
/// loaded. It depends on the machine, so nothing is claimed of it.
#[verifier::external_body]
fn total_memory(sys: &sysinfo::System) -> (bytes: u64) {
    sys.total_memory()
}

/// The installed memory of this machine, in bytes.
pub fn installed_memory() -> (bytes: u64) {
    let mut sys = new_system();
    refresh_memory(&mut sys);
    total_memory(&sys)
}

/// Picks the chat model for this machine by its installed memory.
pub fn model_for_this_machine(tiers: &Vec<Tier>) -> (model: String)
    ensures
        exists|ram: u64| model_choice(tiers@, ram, model@),
{
    let ram: u64 = installed_memory();
    model_for_ram(ram, tiers)
}

} // verus!
