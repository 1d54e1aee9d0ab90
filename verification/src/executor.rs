//! The executor: admission, PID allocation, lifecycle tracking, and exit
//! observation for sandboxed programs.
//!
//! This is the per-host supervisor's bookkeeping core.  It admits a signed
//! bundle only after full verification, snapshots the signer's trust and the
//! fuel budget that follows from it at admission time, issues strictly
//! increasing PIDs, tracks each program from admission to its terminal
//! transition, and keeps a bounded table of exit codes so that late waiters
//! can still observe them.  The engine that actually runs the module, the
//! task runtime and the sockets live outside; they drive this state machine
//! through its operations and are handed plain values back.

use std::collections::HashMap;

use vstd::prelude::*;

use crate::messages::{spec_decode_message, decode_message, MessageModel, NetworkMessage};
use crate::program::{spec_verify_bundle, verify_bundle, AdmitError, ProgramData};
use crate::trust::{spec_has_label, TrustStore};

verus! {

broadcast use vstd::std_specs::hash::group_hash_axioms;

/// Exit code of a program whose entry returned normally.
pub const EXIT_CODE_OK: u32 = 0;

/// Reserved exit code: the program ran out of its fuel budget.
pub const EXIT_CODE_FUEL_EXHAUSTED: u32 = 0xFFFF_FFFE;

/// Reserved exit code: the program trapped or the engine failed.
pub const EXIT_CODE_TRAP: u32 = 0xFFFF_FFFF;

/// Reserved exit code: cancellation was requested and observed.
pub const EXIT_CODE_CANCELLED: u32 = 0xFFFF_FFFD;

/// Where a live program stands.  Terminal outcomes leave the live table and
/// are kept as exit codes instead.
#[derive(Clone, Copy, Debug, PartialEq, Eq, Structural)]
pub enum ProgramState {
    /// Admitted, worker not yet started.
    Admitted,
    /// The worker is executing the program.
    Running,
}

/// How a program's execution ended, as the engine reports it.
#[derive(Clone, Copy, Debug, PartialEq, Eq, Structural)]
pub enum RunOutcome {
    /// The entry function returned normally.
    Completed,
    /// The fuel budget ran out.
    FuelExhausted,
    /// The program trapped, or the engine failed while running it.
    Trapped,
    /// Cancellation was requested and observed at a yield point.
    Cancelled,
}

/// The exit code recorded for each way a run can end.
pub open spec fn spec_exit_code(outcome: RunOutcome) -> u32 {
    match outcome {
        RunOutcome::Completed => EXIT_CODE_OK,
        RunOutcome::FuelExhausted => EXIT_CODE_FUEL_EXHAUSTED,
        RunOutcome::Trapped => EXIT_CODE_TRAP,
        RunOutcome::Cancelled => EXIT_CODE_CANCELLED,
    }
}

/// The exit code recorded for a run outcome.
pub fn exit_code_for(outcome: RunOutcome) -> (code: u32)
    ensures
        code == spec_exit_code(outcome),
{
    match outcome {
        RunOutcome::Completed => EXIT_CODE_OK,
        RunOutcome::FuelExhausted => EXIT_CODE_FUEL_EXHAUSTED,
        RunOutcome::Trapped => EXIT_CODE_TRAP,
        RunOutcome::Cancelled => EXIT_CODE_CANCELLED,
    }
}

/// One row of the live table: an admitted bundle and what was decided about
/// it at admission time.  Trust and the fuel budget are snapshotted here and
/// never read from the store again.
pub struct RunningProgram {
    /// The admitted bundle.
    pub data: ProgramData,
    /// Whether the signer was in the trust store at admission time.
    pub trusted: bool,
    /// The initial fuel the engine is to be given, chosen from the trust
    /// snapshot.
    pub fuel_budget: u64,
    /// Where the program stands.
    pub state: ProgramState,
    /// Whether cancellation has been requested; the worker observes it at
    /// its next cooperative yield.
    pub cancel_requested: bool,
}

/// Why waiting for a PID's exit failed.
#[derive(Clone, Copy, Debug, PartialEq, Eq, Structural)]
pub enum WaitError {
    /// The PID is neither live nor in the exit table.
    UnknownPid,
    /// The caller's deadline passed before the program terminated.
    Timeout,
}

/// What a waiter learns when it polls for a PID's exit.
#[derive(Clone, Copy, Debug, PartialEq, Eq, Structural)]
pub enum PollExit {
    /// The program terminated with this recorded code.
    Exited(u32),
    /// The PID is neither live nor in the exit table.
    Unknown,
    /// The program has not terminated yet; wait and poll again.
    StillRunning,
}

/// The exit table after recording one exit under a cap: the new pair goes
/// to the back, and when the cap is exceeded the oldest entry leaves.
pub open spec fn spec_record_exits(
    exits: Seq<(u64, u32)>,
    pair: (u64, u32),
    cap: int,
) -> Seq<(u64, u32)> {
    let grown = exits.push(pair);
    if grown.len() > cap {
        grown.subrange(1, grown.len() as int)
    } else {
        grown
    }
}

/// The per-host supervisor's bookkeeping state.
pub struct Executor {
    /// The next PID to issue; PIDs count up from zero.
    next_pid: u64,
    /// Initial fuel for bundles whose signer is not trusted.
    untrusted_allowed_instructions: u64,
    /// Initial fuel for bundles whose signer is trusted.
    trusted_allowed_instructions: u64,
    /// The largest module, in bytes, a bundle may carry.
    max_wasm_bytes: u64,
    /// How many exit codes are kept for late waiters.
    exit_code_cap: usize,
    /// The signers whose bundles get the trusted fuel budget.
    trusted_keys: TrustStore,
    /// One row per admitted, not yet terminated program.
    running_programs: HashMap<u64, RunningProgram>,
    /// Exit codes of terminated programs, oldest first.
    exit_codes: Vec<(u64, u32)>,
    /// Every PID this executor has issued, in order of issue.
    issued: Ghost<Seq<u64>>,
}

impl Executor {
    /// The next PID to issue.
    pub closed spec fn spec_next_pid(&self) -> u64 {
        self.next_pid
    }

    /// The live table: one row per admitted, not yet terminated program.
    pub closed spec fn live(&self) -> Map<u64, RunningProgram> {
        self.running_programs@
    }

    /// The exit table, oldest first.
    pub closed spec fn exits(&self) -> Seq<(u64, u32)> {
        self.exit_codes@
    }

    /// The trust store.
    pub closed spec fn spec_trust(&self) -> TrustStore {
        self.trusted_keys
    }

    /// Initial fuel for untrusted signers.
    pub closed spec fn spec_untrusted_fuel(&self) -> u64 {
        self.untrusted_allowed_instructions
    }

    /// Initial fuel for trusted signers.
    pub closed spec fn spec_trusted_fuel(&self) -> u64 {
        self.trusted_allowed_instructions
    }

    /// The largest module a bundle may carry.
    pub closed spec fn spec_max_wasm_bytes(&self) -> u64 {
        self.max_wasm_bytes
    }

    /// How many exit codes are kept.
    pub closed spec fn spec_exit_code_cap(&self) -> usize {
        self.exit_code_cap
    }

    /// Every PID issued so far, in order of issue.
    pub closed spec fn issued(&self) -> Seq<u64> {
        self.issued@
    }

    /// The executor's invariant: issued PIDs grow strictly and stay below
    /// the counter, live rows and exit rows carry issued-range PIDs, no PID
    /// is both live and exited, exit PIDs are unique, and the exit table
    /// respects its cap.
    pub open spec fn wf(&self) -> bool {
        &&& self.spec_trust().wf()
        &&& forall|p: u64| #[trigger]
            self.live().contains_key(p) ==> p < self.spec_next_pid()
        &&& forall|i: int|
            0 <= i < self.exits().len() ==> (#[trigger] self.exits()[i]).0 < self.spec_next_pid()
        &&& forall|i: int|
            0 <= i < self.exits().len() ==> !self.live().contains_key(
                (#[trigger] self.exits()[i]).0,
            )
        &&& forall|i: int, j: int|
            #![trigger self.exits()[i], self.exits()[j]]
            0 <= i < j < self.exits().len() ==> self.exits()[i].0 != self.exits()[j].0
        &&& self.exits().len() <= self.spec_exit_code_cap()
        &&& forall|i: int, j: int|
            #![trigger self.issued()[i], self.issued()[j]]
            0 <= i < j < self.issued().len() ==> self.issued()[i] < self.issued()[j]
        &&& forall|i: int|
            0 <= i < self.issued().len() ==> #[trigger] self.issued()[i] < self.spec_next_pid()
    }

    /// All the configuration the lifecycle operations leave alone.
    pub open spec fn same_config(&self, other: &Executor) -> bool {
        &&& self.spec_untrusted_fuel() == other.spec_untrusted_fuel()
        &&& self.spec_trusted_fuel() == other.spec_trusted_fuel()
        &&& self.spec_max_wasm_bytes() == other.spec_max_wasm_bytes()
        &&& self.spec_exit_code_cap() == other.spec_exit_code_cap()
    }

    /// A fresh executor: no programs, no exits, an empty trust store, PIDs
    /// from zero, and the default fuel policy of a small budget for
    /// untrusted signers and an effectively unlimited one for trusted
    /// signers.
    pub fn new(max_wasm_bytes: u64, exit_code_cap: usize) -> (e: Executor)
        ensures
            e.wf(),
            e.spec_next_pid() == 0,
            e.live() == Map::<u64, RunningProgram>::empty(),
            e.exits() == Seq::<(u64, u32)>::empty(),
            e.spec_trust()@ == Seq::<(Seq<char>, Seq<u8>)>::empty(),
            e.spec_untrusted_fuel() == 16384u64,
            e.spec_trusted_fuel() == u64::MAX,
            e.spec_max_wasm_bytes() == max_wasm_bytes,
            e.spec_exit_code_cap() == exit_code_cap,
            e.issued() == Seq::<u64>::empty(),
    {
        Executor {
            next_pid: 0,
            untrusted_allowed_instructions: 16384,
            trusted_allowed_instructions: u64::MAX,
            max_wasm_bytes: max_wasm_bytes,
            exit_code_cap: exit_code_cap,
            trusted_keys: TrustStore::new(),
            running_programs: HashMap::new(),
            exit_codes: Vec::new(),
            issued: Ghost(Seq::empty()),
        }
    }

    /// Adds a signer to the trust store.  The live table is untouched: a
    /// running program's trust snapshot and fuel budget never change.
    pub fn add_trusted_key(&mut self, name: String, key: Vec<u8>)
        requires
            old(self).wf(),
        ensures
            final(self).wf(),
            final(self).live() == old(self).live(),
            final(self).exits() == old(self).exits(),
            final(self).spec_next_pid() == old(self).spec_next_pid(),
            final(self).same_config(old(self)),
            final(self).issued() == old(self).issued(),
            spec_has_label(old(self).spec_trust()@, name@) ==> exists|j: int|
                0 <= j < old(self).spec_trust()@.len() && old(self).spec_trust()@[j].0 == name@
                    && final(self).spec_trust()@ == old(self).spec_trust()@.update(
                    j,
                    (name@, key@),
                ),
            !spec_has_label(old(self).spec_trust()@, name@) ==> final(self).spec_trust()@ == old(
                self,
            ).spec_trust()@.push((name@, key@)),
    {
        self.trusted_keys.add(name, key);
        proof {
            assert(self.live() == old(self).live());
            assert(self.exits() == old(self).exits());
            assert(self.issued() == old(self).issued());
            assert(self.spec_next_pid() == old(self).spec_next_pid());
        }
    }

    /// The PID the next admission will be issued, which is also how many
    /// PIDs have been issued so far.  A driver checks this against the
    /// counter's ceiling before admitting.
    pub fn next_pid_value(&self) -> (pid: u64)
        ensures
            pid == self.spec_next_pid(),
    {
        self.next_pid
    }

    /// How many exit codes are kept for late waiters.
    pub fn exit_code_cap_value(&self) -> (cap: usize)
        ensures
            cap == self.spec_exit_code_cap(),
    {
        self.exit_code_cap
    }

    /// How many signers the trust store holds.  Startup fills the store
    /// asynchronously, so early admission paths check this before assuming
    /// the host trusts even itself.
    pub fn trusted_key_count(&self) -> (n: usize)
        ensures
            n == self.spec_trust()@.len(),
    {
        self.trusted_keys.len()
    }

    /// Whether these verifying-key bytes belong to a trusted signer.
    pub fn key_is_trusted(&self, public_key_bytes: &[u8]) -> (trusted: bool)
        ensures
            trusted == self.spec_trust().spec_contains_key(public_key_bytes@),
    {
        self.trusted_keys.contains(public_key_bytes)
    }

    /// Sets the fuel budget handed to bundles of untrusted signers.
    /// Programs already admitted keep the budget they were given.
    pub fn set_untrusted_allowed_instructions(&mut self, fuel: u64)
        requires
            old(self).wf(),
        ensures
            final(self).wf(),
            final(self).spec_untrusted_fuel() == fuel,
            final(self).live() == old(self).live(),
            final(self).exits() == old(self).exits(),
            final(self).spec_next_pid() == old(self).spec_next_pid(),
            final(self).spec_trust() == old(self).spec_trust(),
            final(self).spec_trusted_fuel() == old(self).spec_trusted_fuel(),
            final(self).spec_max_wasm_bytes() == old(self).spec_max_wasm_bytes(),
            final(self).spec_exit_code_cap() == old(self).spec_exit_code_cap(),
            final(self).issued() == old(self).issued(),
    {
        self.untrusted_allowed_instructions = fuel;
        proof {
            assert(self.live() == old(self).live());
            assert(self.exits() == old(self).exits());
            assert(self.issued() == old(self).issued());
            assert(self.spec_next_pid() == old(self).spec_next_pid());
        }
    }

    /// Sets the fuel budget handed to bundles of trusted signers.
    pub fn set_trusted_allowed_instructions(&mut self, fuel: u64)
        requires
            old(self).wf(),
        ensures
            final(self).wf(),
            final(self).spec_trusted_fuel() == fuel,
            final(self).live() == old(self).live(),
            final(self).exits() == old(self).exits(),
            final(self).spec_next_pid() == old(self).spec_next_pid(),
            final(self).spec_trust() == old(self).spec_trust(),
            final(self).spec_untrusted_fuel() == old(self).spec_untrusted_fuel(),
            final(self).spec_max_wasm_bytes() == old(self).spec_max_wasm_bytes(),
            final(self).spec_exit_code_cap() == old(self).spec_exit_code_cap(),
            final(self).issued() == old(self).issued(),
    {
        self.trusted_allowed_instructions = fuel;
        proof {
            assert(self.live() == old(self).live());
            assert(self.exits() == old(self).exits());
            assert(self.issued() == old(self).issued());
            assert(self.spec_next_pid() == old(self).spec_next_pid());
        }
    }

    /// Admits a bundle or refuses it: verifies it in full under the given
    /// clock, snapshots the signer's trust, chooses the fuel budget from
    /// that snapshot, issues the next PID and inserts the program as
    /// admitted.  Admission returns before execution begins; every bundle
    /// this function accepts is one `verify_bundle` accepts under the same
    /// clock.
    pub fn begin_exec(&mut self, program: ProgramData, now: u64, skew_s: u64) -> (r: Result<
        u64,
        AdmitError,
    >)
        requires
            old(self).wf(),
            old(self).spec_next_pid() < u64::MAX,
        ensures
            final(self).wf(),
            r == match spec_verify_bundle(
                program@,
                now,
                skew_s,
                old(self).spec_max_wasm_bytes(),
            ) {
                Ok(()) => Ok::<u64, AdmitError>(old(self).spec_next_pid()),
                Err(e) => Err::<u64, AdmitError>(e),
            },
            r is Ok ==> spec_verify_bundle(
                program@,
                now,
                skew_s,
                old(self).spec_max_wasm_bytes(),
            ) is Ok,
            r is Err ==> *final(self) == *old(self),
            r matches Ok(pid) ==> {
                let trusted = old(self).spec_trust().spec_contains_key(
                    program@.source.encoded_public_key,
                );
                &&& pid == old(self).spec_next_pid()
                &&& final(self).spec_next_pid() == old(self).spec_next_pid() + 1
                &&& final(self).live() == old(self).live().insert(
                    pid,
                    RunningProgram {
                        data: program,
                        trusted: trusted,
                        fuel_budget: if trusted {
                            old(self).spec_trusted_fuel()
                        } else {
                            old(self).spec_untrusted_fuel()
                        },
                        state: ProgramState::Admitted,
                        cancel_requested: false,
                    },
                )
                &&& final(self).exits() == old(self).exits()
                &&& final(self).spec_trust() == old(self).spec_trust()
                &&& final(self).same_config(old(self))
                &&& final(self).issued() == old(self).issued().push(pid)
            },
    {
        match verify_bundle(&program, now, skew_s, self.max_wasm_bytes) {
            Err(e) => Err(e),
            Ok(()) => {
                let trusted = self.trusted_keys.contains(
                    program.source.encoded_public_key.as_slice(),
                );
                let fuel = if trusted {
                    self.trusted_allowed_instructions
                } else {
                    self.untrusted_allowed_instructions
                };
                let pid = self.next_pid;
                self.next_pid = self.next_pid + 1;
                let row = RunningProgram {
                    data: program,
                    trusted: trusted,
                    fuel_budget: fuel,
                    state: ProgramState::Admitted,
                    cancel_requested: false,
                };
                self.running_programs.insert(pid, row);
                proof {
                    self.issued@ = self.issued@.push(pid);
                    assert(self.exits() == old(self).exits());
                    assert(self.spec_trust() == old(self).spec_trust());
                    assert(self.spec_next_pid() == old(self).spec_next_pid() + 1);
                    assert(self.issued() == old(self).issued().push(pid));
                    assert forall|p: u64| #[trigger]
                        self.live().contains_key(p) implies p < self.spec_next_pid() by {
                        if p != pid {
                            assert(old(self).live().contains_key(p));
                        }
                    }
                    assert forall|i: int|
                        0 <= i < self.exits().len() implies (#[trigger] self.exits()[i]).0
                        < self.spec_next_pid() by {
                        assert((old(self).exits()[i]).0 < old(self).spec_next_pid());
                    }
                    assert forall|i: int|
                        0 <= i < self.exits().len() implies !self.live().contains_key(
                        (#[trigger] self.exits()[i]).0,
                    ) by {
                        assert(!old(self).live().contains_key((old(self).exits()[i]).0));
                        assert((old(self).exits()[i]).0 < pid);
                    }
                    assert forall|i: int, j: int|
                        #![trigger self.exits()[i], self.exits()[j]]
                        0 <= i < j < self.exits().len() implies self.exits()[i].0
                        != self.exits()[j].0 by {
                        assert(old(self).exits()[i].0 != old(self).exits()[j].0);
                    }
                    assert forall|i: int, j: int|
                        #![trigger self.issued()[i], self.issued()[j]]
                        0 <= i < j < self.issued().len() implies self.issued()[i]
                        < self.issued()[j] by {
                        if j < old(self).issued().len() {
                            assert(old(self).issued()[i] < old(self).issued()[j]);
                        } else {
                            assert(old(self).issued()[i] < old(self).spec_next_pid());
                        }
                    }
                    assert forall|i: int|
                        0 <= i < self.issued().len() implies #[trigger] self.issued()[i]
                        < self.spec_next_pid() by {
                        if i < old(self).issued().len() {
                            assert(old(self).issued()[i] < old(self).spec_next_pid());
                        }
                    }
                }
                Ok(pid)
            },
        }
    }

    /// A read-only view of a live program's row, so the driver can build
    /// the engine from the admitted bundle and its fuel budget.
    pub fn get_running(&self, pid: u64) -> (row: Option<&RunningProgram>)
        ensures
            match row {
                Some(r) => self.live().contains_key(pid) && *r == self.live()[pid],
                None => !self.live().contains_key(pid),
            },
    {
        self.running_programs.get(&pid)
    }

    /// The one edit a lifecycle step makes to a live row: mark it running,
    /// or flag it for cancellation.
    fn edit_row(&mut self, pid: u64, set_running: bool) -> (found: bool)
        requires
            old(self).wf(),
        ensures
            final(self).wf(),
            found == old(self).live().contains_key(pid),
            found ==> final(self).live() == old(self).live().insert(
                pid,
                if set_running {
                    RunningProgram { state: ProgramState::Running, ..old(self).live()[pid] }
                } else {
                    RunningProgram { cancel_requested: true, ..old(self).live()[pid] }
                },
            ),
            !found ==> *final(self) == *old(self),
            final(self).exits() == old(self).exits(),
            final(self).spec_next_pid() == old(self).spec_next_pid(),
            final(self).spec_trust() == old(self).spec_trust(),
            final(self).same_config(old(self)),
            final(self).issued() == old(self).issued(),
    {
        if !self.running_programs.contains_key(&pid) {
            return false;
        }
        let row = match self.running_programs.remove(&pid) {
            Some(r) => r,
            None => vstd::pervasive::unreached(),
        };
        let updated = if set_running {
            RunningProgram {
                data: row.data,
                trusted: row.trusted,
                fuel_budget: row.fuel_budget,
                state: ProgramState::Running,
                cancel_requested: row.cancel_requested,
            }
        } else {
            RunningProgram {
                data: row.data,
                trusted: row.trusted,
                fuel_budget: row.fuel_budget,
                state: row.state,
                cancel_requested: true,
            }
        };
        self.running_programs.insert(pid, updated);
        proof {
            assert(row == old(self).live()[pid]);
            assert(self.exits() == old(self).exits());
            assert(self.spec_trust() == old(self).spec_trust());
            assert(self.issued() == old(self).issued());
            assert(self.spec_next_pid() == old(self).spec_next_pid());
            assert(self.live() =~= old(self).live().insert(pid, updated));
            assert forall|p: u64| #[trigger]
                self.live().contains_key(p) implies p < self.spec_next_pid() by {
                if p != pid {
                    assert(old(self).live().contains_key(p));
                } else {
                    assert(old(self).live().contains_key(pid));
                }
            }
            assert forall|i: int|
                0 <= i < self.exits().len() implies (#[trigger] self.exits()[i]).0
                < self.spec_next_pid() by {
                assert((old(self).exits()[i]).0 < old(self).spec_next_pid());
            }
            assert forall|i: int|
                0 <= i < self.exits().len() implies !self.live().contains_key(
                (#[trigger] self.exits()[i]).0,
            ) by {
                assert(!old(self).live().contains_key((old(self).exits()[i]).0));
            }
            assert forall|i: int, j: int|
                #![trigger self.exits()[i], self.exits()[j]]
                0 <= i < j < self.exits().len() implies self.exits()[i].0 != self.exits()[j].0 by {
                assert(old(self).exits()[i].0 != old(self).exits()[j].0);
            }
            assert forall|i: int, j: int|
                #![trigger self.issued()[i], self.issued()[j]]
                0 <= i < j < self.issued().len() implies self.issued()[i] < self.issued()[j] by {
                assert(old(self).issued()[i] < old(self).issued()[j]);
            }
            assert forall|i: int|
                0 <= i < self.issued().len() implies #[trigger] self.issued()[i]
                < self.spec_next_pid() by {
                assert(old(self).issued()[i] < old(self).spec_next_pid());
            }
        }
        true
    }

    /// Marks a live program as running; the worker calls this when it picks
    /// the program up.  Any other PID is left alone.
    pub fn mark_running(&mut self, pid: u64) -> (found: bool)
        requires
            old(self).wf(),
        ensures
            final(self).wf(),
            found == old(self).live().contains_key(pid),
            found ==> final(self).live() == old(self).live().insert(
                pid,
                RunningProgram { state: ProgramState::Running, ..old(self).live()[pid] },
            ),
            !found ==> *final(self) == *old(self),
            final(self).exits() == old(self).exits(),
            final(self).spec_next_pid() == old(self).spec_next_pid(),
            final(self).spec_trust() == old(self).spec_trust(),
            final(self).same_config(old(self)),
            final(self).issued() == old(self).issued(),
    {
        self.edit_row(pid, true)
    }

    /// Requests cancellation of a live program.  Not synchronous: the
    /// worker observes the flag at its next cooperative yield and records
    /// the cancelled exit itself.
    pub fn terminate_running_pid(&mut self, pid: u64) -> (found: bool)
        requires
            old(self).wf(),
        ensures
            final(self).wf(),
            found == old(self).live().contains_key(pid),
            found ==> final(self).live() == old(self).live().insert(
                pid,
                RunningProgram { cancel_requested: true, ..old(self).live()[pid] },
            ),
            !found ==> *final(self) == *old(self),
            final(self).exits() == old(self).exits(),
            final(self).spec_next_pid() == old(self).spec_next_pid(),
            final(self).spec_trust() == old(self).spec_trust(),
            final(self).same_config(old(self)),
            final(self).issued() == old(self).issued(),
    {
        self.edit_row(pid, false)
    }

    /// Records a live program's terminal outcome: the row leaves the live
    /// table and its exit code joins the exit table, evicting the oldest
    /// entry when the cap is exceeded.  A PID that is not live is left
    /// alone.
    pub fn record_exit(&mut self, pid: u64, outcome: RunOutcome) -> (code: Option<u32>)
        requires
            old(self).wf(),
            old(self).spec_exit_code_cap() >= 1,
        ensures
            final(self).wf(),
            old(self).live().contains_key(pid) ==> {
                &&& code == Some(spec_exit_code(outcome))
                &&& final(self).live() == old(self).live().remove(pid)
                &&& final(self).exits() == spec_record_exits(
                    old(self).exits(),
                    (pid, spec_exit_code(outcome)),
                    old(self).spec_exit_code_cap() as int,
                )
                &&& spec_exit_recorded(*final(self), pid, spec_exit_code(outcome))
            },
            // Recording one exit disturbs no other recorded exit, except
            // that a full table evicts its oldest entry.
            old(self).live().contains_key(pid) ==> forall|p: u64, c: u32|
                spec_exit_recorded(*old(self), p, c) && (old(self).exits().len() < old(
                    self,
                ).spec_exit_code_cap() || (p, c) != old(self).exits()[0])
                    ==> #[trigger] spec_exit_recorded(*final(self), p, c),
            !old(self).live().contains_key(pid) ==> code is None && *final(self) == *old(self),
            final(self).spec_next_pid() == old(self).spec_next_pid(),
            final(self).spec_trust() == old(self).spec_trust(),
            final(self).same_config(old(self)),
            final(self).issued() == old(self).issued(),
    {
        if !self.running_programs.contains_key(&pid) {
            return None;
        }
        match self.running_programs.remove(&pid) {
            None => vstd::pervasive::unreached(),
            Some(_row) => {
                let code = exit_code_for(outcome);
                self.exit_codes.push((pid, code));
                if self.exit_codes.len() > self.exit_code_cap {
                    self.exit_codes.remove(0);
                }
                proof {
                    let ex0 = old(self).exits();
                    let pr = (pid, spec_exit_code(outcome));
                    let cap = old(self).spec_exit_code_cap() as int;
                    let ex1 = self.exits();
                    let grown = ex0.push(pr);
                    assert(ex1 =~= spec_record_exits(ex0, pr, cap));
                    assert(self.live() == old(self).live().remove(pid));
                    assert(self.issued() == old(self).issued());
                    assert(self.spec_next_pid() == old(self).spec_next_pid());
                    assert(self.spec_trust() == old(self).spec_trust());
                    // The new pair's PID was live, so no old row carries it.
                    assert forall|i: int|
                        0 <= i < ex0.len() implies (#[trigger] ex0[i]).0 != pid by {
                        assert(!old(self).live().contains_key(ex0[i].0));
                    }
                    assert(ex1[ex1.len() - 1] == pr);
                    assert(spec_exit_recorded(*self, pid, spec_exit_code(outcome)));
                    assert forall|p: u64| #[trigger]
                        self.live().contains_key(p) implies p < self.spec_next_pid() by {
                        assert(old(self).live().contains_key(p));
                    }
                    let offset: int = if grown.len() > cap {
                        1
                    } else {
                        0
                    };
                    assert forall|i: int|
                        0 <= i < ex1.len() implies (#[trigger] ex1[i]).0
                        < self.spec_next_pid() by {
                        assert(ex1[i] == grown[i + offset]);
                        if i + offset < ex0.len() {
                            assert(ex0[i + offset].0 < old(self).spec_next_pid());
                        } else {
                            assert(grown[i + offset] == pr);
                            assert(old(self).live().contains_key(pid));
                        }
                    }
                    assert forall|i: int|
                        0 <= i < ex1.len() implies !self.live().contains_key(
                        (#[trigger] ex1[i]).0,
                    ) by {
                        assert(ex1[i] == grown[i + offset]);
                        if i + offset < ex0.len() {
                            assert(!old(self).live().contains_key(ex0[i + offset].0));
                        }
                    }
                    assert forall|i: int, j: int|
                        #![trigger ex1[i], ex1[j]]
                        0 <= i < j < ex1.len() implies ex1[i].0 != ex1[j].0 by {
                        assert(ex1[i] == grown[i + offset]);
                        assert(ex1[j] == grown[j + offset]);
                        if j + offset < ex0.len() {
                            assert(ex0[i + offset].0 != ex0[j + offset].0);
                        } else {
                            assert(grown[j + offset] == pr);
                            assert(ex0[i + offset].0 != pid);
                        }
                    }
                    assert forall|p: u64, c: u32|
                        spec_exit_recorded(*old(self), p, c) && (ex0.len() < cap || (p, c)
                            != ex0[0]) implies spec_exit_recorded(*self, p, c) by {
                        let j = choose|j: int| 0 <= j < ex0.len() && ex0[j] == (p, c);
                        assert(grown[j] == ex0[j]);
                        if offset == 1 {
                            assert(j != 0);
                            assert(ex1[j - 1] == grown[j]);
                        } else {
                            assert(ex1[j] == grown[j]);
                        }
                        assert(!old(self).live().contains_key(p));
                    }
                }
                Some(code)
            },
        }
    }

    /// Polls for a PID's exit: the recorded code once the program has
    /// terminated, `StillRunning` while it is live, `Unknown` when the PID
    /// was never issued or its code has been evicted.  A waiter loops:
    /// register for the exit wakeup, poll, and sleep only if still running.
    /// Whenever the state records an exit code for the PID, the poll
    /// returns exactly that code.
    pub fn poll_pid_exit(&self, pid: u64) -> (r: PollExit)
        requires
            self.wf(),
        ensures
            match r {
                PollExit::StillRunning => self.live().contains_key(pid),
                PollExit::Exited(code) => spec_exit_recorded(*self, pid, code),
                PollExit::Unknown => !self.live().contains_key(pid) && forall|i: int|
                    0 <= i < self.exits().len() ==> (#[trigger] self.exits()[i]).0 != pid,
            },
            forall|code: u32|
                spec_exit_recorded(*self, pid, code) ==> r == PollExit::Exited(code),
    {
        if self.running_programs.contains_key(&pid) {
            return PollExit::StillRunning;
        }
        let n = self.exit_codes.len();
        let mut i: usize = 0;
        while i < n
            invariant
                self.wf(),
                !self.live().contains_key(pid),
                n == self.exits().len(),
                0 <= i <= n,
                forall|j: int| 0 <= j < i ==> (#[trigger] self.exits()[j]).0 != pid,
            decreases n - i,
    {
            let entry = self.exit_codes[i];
            if entry.0 == pid {
                proof {
                    assert(self.exits()[i as int] == (pid, entry.1));
                    assert forall|code: u32|
                        spec_exit_recorded(*self, pid, code) implies code == entry.1 by {
                        let k = choose|k: int|
                            0 <= k < self.exits().len() && self.exits()[k] == (pid, code);
                        if k < i as int {
                            assert(self.exits()[k].0 != pid);
                        } else if k > i as int {
                            assert(self.exits()[i as int].0 != self.exits()[k].0);
                        }
                    }
                }
                return PollExit::Exited(entry.1);
            }
            i = i + 1;
        }
        PollExit::Unknown
    }

    /// Handles one received datagram: decodes it, hands an execute request
    /// to admission, and ignores every other variant, as a server's receive
    /// loop does.
    pub fn handle_datagram(&mut self, datagram: &[u8], now: u64, skew_s: u64) -> (r: Result<
        Option<u64>,
        AdmitError,
    >)
        requires
            old(self).wf(),
            old(self).spec_next_pid() < u64::MAX,
        ensures
            final(self).wf(),
            spec_decode_message(datagram@) is None ==> r == Err::<Option<u64>, AdmitError>(
                AdmitError::DecodeFailed,
            ) && *final(self) == *old(self),
            spec_decode_message(datagram@) matches Some(m) ==> match m {
                MessageModel::ExecuteRequest { program_data } => match spec_verify_bundle(
                    program_data,
                    now,
                    skew_s,
                    old(self).spec_max_wasm_bytes(),
                ) {
                    Err(e) => r == Err::<Option<u64>, AdmitError>(e) && *final(self) == *old(
                        self,
                    ),
                    Ok(()) => {
                        let pid = old(self).spec_next_pid();
                        &&& r == Ok::<Option<u64>, AdmitError>(Some(pid))
                        &&& final(self).spec_next_pid() == pid + 1
                        &&& final(self).issued() == old(self).issued().push(pid)
                        &&& final(self).exits() == old(self).exits()
                        &&& final(self).spec_trust() == old(self).spec_trust()
                        &&& exists|row: RunningProgram|
                            {
                                let trusted = old(self).spec_trust().spec_contains_key(
                                    program_data.source.encoded_public_key,
                                );
                                &&& final(self).live() == #[trigger] old(self).live().insert(
                                    pid,
                                    row,
                                )
                                &&& row.data@ == program_data
                                &&& row.trusted == trusted
                                &&& row.fuel_budget == if trusted {
                                    old(self).spec_trusted_fuel()
                                } else {
                                    old(self).spec_untrusted_fuel()
                                }
                                &&& row.state == ProgramState::Admitted
                                &&& !row.cancel_requested
                            }
                    },
                },
                _ => r == Ok::<Option<u64>, AdmitError>(None) && *final(self) == *old(self),
            },
    {
        match decode_message(datagram) {
            Err(_) => Err(AdmitError::DecodeFailed),
            Ok(NetworkMessage::ExecuteRequest { program_data }) => {
                match self.begin_exec(program_data, now, skew_s) {
                    Ok(pid) => Ok(Some(pid)),
                    Err(e) => Err(e),
                }
            },
            Ok(_) => Ok(None),
        }
    }
}

/// Whether an executor's state shows a terminated PID with this recorded
/// exit code: the PID is no longer live and the exit table carries the pair.
pub open spec fn spec_exit_recorded(e: Executor, pid: u64, code: u32) -> bool {
    &&& !e.live().contains_key(pid)
    &&& exists|i: int| 0 <= i < e.exits().len() && e.exits()[i] == (pid, code)
}

/// Law: the PIDs one executor issues are strictly increasing — whenever one
/// admission happens after another, it returns the larger PID.  `issued()`
/// is the log of what `begin_exec` returned, in order of issue.
pub proof fn lemma_pids_strictly_increasing(e: &Executor, i: int, j: int)
    requires
        e.wf(),
        0 <= i < j < e.issued().len(),
    ensures
        e.issued()[i] < e.issued()[j],
{
}

/// Law: an executor's state records at most one exit code per PID, so every
/// waiter that observes a terminated PID observes the same code.
pub proof fn lemma_exit_code_unique(e: &Executor, pid: u64, code1: u32, code2: u32)
    requires
        e.wf(),
        spec_exit_recorded(*e, pid, code1),
        spec_exit_recorded(*e, pid, code2),
    ensures
        code1 == code2,
{
    let i = choose|i: int| 0 <= i < e.exits().len() && e.exits()[i] == (pid, code1);
    let j = choose|j: int| 0 <= j < e.exits().len() && e.exits()[j] == (pid, code2);
    if i < j {
        assert(e.exits()[i].0 != e.exits()[j].0);
    } else if j < i {
        assert(e.exits()[j].0 != e.exits()[i].0);
    }
}

/// Law: a change that leaves the live table alone — as `add_trusted_key`
/// does by contract — changes no running program's fuel budget or trust
/// snapshot.
pub proof fn lemma_trust_change_leaves_running_programs(
    before: &Executor,
    after: &Executor,
    pid: u64,
)
    requires
        after.live() == before.live(),
        before.live().contains_key(pid),
    ensures
        after.live().contains_key(pid),
        after.live()[pid].fuel_budget == before.live()[pid].fuel_budget,
        after.live()[pid].trusted == before.live()[pid].trusted,
{
}

} // verus!
