//! The fetch-decode-execute loop. [`step_view`] is the specification-level
//! transition function for one instruction; [`CPU::step`] is proved to
//! realize it exactly, and the run loops are proved to iterate it until a
//! halting opcode, reporting why they stopped.

use crate::core_functions::{add_a_view, operand_addr, with_a, with_x, with_y};
use crate::cpu::CPU;
use crate::memory::Memory;
use crate::model::{
    flag_set, load_view, mem_byte, pushed8, reset_view, with_byte, CpuView, FLAG_CARRY,
    FLAG_DECIMAL, FLAG_INTERRUPT_DISABLE, FLAG_NEGATIVE, FLAG_OVERFLOW, FLAG_ZERO, LOAD_ADDR,
    MEM_SIZE,
};
use crate::opcode_methods::{
    asl_acc_view, asl_view, bit_view, branch_view, compare_view, dec_view, flag_view, inc_view,
    jmp_abs_view, jmp_ind_view, jsr_view, lsr_acc_view, lsr_view, operand, php_view, pla_view,
    plp_view, rol_acc_view, rol_view, ror_acc_view, ror_view, rti_view, rts_view,
};
use crate::opcode_table::{opcode_entry, opcode_lookup, table_wf, Mnemonic, OpInfo};
use crate::stack::Stack;
use vstd::prelude::*;

verus! {

/// Why a run loop returned control to the host.
#[derive(Clone, Copy, Debug, PartialEq, Eq, Structural)]
pub enum StopReason {
    /// A BRK opcode was fetched: normal termination.
    Brk,
    /// The fetched opcode is not in the table: a fatal decode error.
    UnknownOpcode(u8),
    /// The run loop's explicit step budget of `u64::MAX` instructions ran
    /// out. The budget exists so that the loop provably terminates; no
    /// practical execution reaches it.
    StepLimit,
}

/// A host callback, invoked synchronously after every executed
/// instruction with exclusive mutable access to the whole CPU state.
pub trait Hook {
    /// Called between instructions; the host may observe and adjust any
    /// part of the state.
    fn on_instruction(&mut self, cpu: &mut CPU);
}

/// The hook that does nothing, for hosts that drive
/// [`CPU::run_with_callback`] without wanting a callback.
pub struct NoopHook;

impl Hook for NoopHook {
    fn on_instruction(&mut self, _cpu: &mut CPU) {
    }
}

/// The state with the opcode byte consumed: PC one past where it was.
pub open spec fn fetched(s: CpuView) -> CpuView {
    CpuView { pc: s.pc.wrapping_add(1), ..s }
}

/// A state from which the dispatcher will not execute another
/// instruction: the byte at PC is BRK or is not a decodable opcode.
pub open spec fn is_final(s: CpuView) -> bool {
    match opcode_entry(mem_byte(s, s.pc)) {
        Some(info) => info.mnemonic is Brk,
        None => true,
    }
}

/// The effect of one decoded instruction on the state, with PC already
/// past the opcode byte and not yet advanced past the operand.
pub open spec fn instr_effect(s: CpuView, info: OpInfo) -> CpuView {
    match info.mnemonic {
        Mnemonic::Adc => add_a_view(s, operand(s, info.mode)),
        Mnemonic::And => with_a(s, operand(s, info.mode) & s.a),
        Mnemonic::Asl => asl_view(s, info.mode),
        Mnemonic::AslA => asl_acc_view(s),
        Mnemonic::Bcc => branch_view(s, !flag_set(s.status, FLAG_CARRY)),
        Mnemonic::Bcs => branch_view(s, flag_set(s.status, FLAG_CARRY)),
        Mnemonic::Beq => branch_view(s, flag_set(s.status, FLAG_ZERO)),
        Mnemonic::Bit => bit_view(s, info.mode),
        Mnemonic::Bmi => branch_view(s, flag_set(s.status, FLAG_NEGATIVE)),
        Mnemonic::Bne => branch_view(s, !flag_set(s.status, FLAG_ZERO)),
        Mnemonic::Bpl => branch_view(s, !flag_set(s.status, FLAG_NEGATIVE)),
        Mnemonic::Brk => s,
        Mnemonic::Bvc => branch_view(s, !flag_set(s.status, FLAG_OVERFLOW)),
        Mnemonic::Bvs => branch_view(s, flag_set(s.status, FLAG_OVERFLOW)),
        Mnemonic::Clc => flag_view(s, FLAG_CARRY, false),
        Mnemonic::Cld => flag_view(s, FLAG_DECIMAL, false),
        Mnemonic::Cli => flag_view(s, FLAG_INTERRUPT_DISABLE, false),
        Mnemonic::Clv => flag_view(s, FLAG_OVERFLOW, false),
        Mnemonic::Cmp => compare_view(s, info.mode, s.a),
        Mnemonic::Cpx => compare_view(s, info.mode, s.x),
        Mnemonic::Cpy => compare_view(s, info.mode, s.y),
        Mnemonic::Dec => dec_view(s, info.mode),
        Mnemonic::Dex => with_x(s, s.x.wrapping_sub(1)),
        Mnemonic::Dey => with_y(s, s.y.wrapping_sub(1)),
        Mnemonic::Eor => with_a(s, operand(s, info.mode) ^ s.a),
        Mnemonic::Inc => inc_view(s, info.mode),
        Mnemonic::Inx => with_x(s, s.x.wrapping_add(1)),
        Mnemonic::Iny => with_y(s, s.y.wrapping_add(1)),
        Mnemonic::JmpAbs => jmp_abs_view(s),
        Mnemonic::JmpInd => jmp_ind_view(s),
        Mnemonic::Jsr => jsr_view(s),
        Mnemonic::Lda => with_a(s, operand(s, info.mode)),
        Mnemonic::Ldx => with_x(s, operand(s, info.mode)),
        Mnemonic::Ldy => with_y(s, operand(s, info.mode)),
        Mnemonic::Lsr => lsr_view(s, info.mode),
        Mnemonic::LsrA => lsr_acc_view(s),
        Mnemonic::Nop => s,
        Mnemonic::Ora => with_a(s, s.a | operand(s, info.mode)),
        Mnemonic::Pha => pushed8(s, s.a),
        Mnemonic::Php => php_view(s),
        Mnemonic::Pla => pla_view(s),
        Mnemonic::Plp => plp_view(s),
        Mnemonic::Rol => rol_view(s, info.mode),
        Mnemonic::RolA => rol_acc_view(s),
        Mnemonic::Ror => ror_view(s, info.mode),
        Mnemonic::RorA => ror_acc_view(s),
        Mnemonic::Rti => rti_view(s),
        Mnemonic::Rts => rts_view(s),
        Mnemonic::Sbc => add_a_view(s, (0xFF - operand(s, info.mode)) as u8),
        Mnemonic::Sec => flag_view(s, FLAG_CARRY, true),
        Mnemonic::Sed => flag_view(s, FLAG_DECIMAL, true),
        Mnemonic::Sei => flag_view(s, FLAG_INTERRUPT_DISABLE, true),
        Mnemonic::Sta => with_byte(s, operand_addr(s, info.mode), s.a),
        Mnemonic::Stx => with_byte(s, operand_addr(s, info.mode), s.x),
        Mnemonic::Sty => with_byte(s, operand_addr(s, info.mode), s.y),
        Mnemonic::Tax => with_x(s, s.a),
        Mnemonic::Tay => with_y(s, s.a),
        Mnemonic::Tsx => with_x(s, s.sp),
        Mnemonic::Txa => with_a(s, s.x),
        Mnemonic::Txs => (CpuView { sp: s.x, ..s }),
        Mnemonic::Tya => with_a(s, s.y),
    }
}

/// One full dispatcher round on a non-final state: consume the opcode,
/// apply the instruction's effect, and advance PC by `len - 1` exactly
/// when the instruction did not write PC itself.
pub open spec fn step_view(s: CpuView) -> CpuView
    recommends
        !is_final(s),
        s.mem.len() == MEM_SIZE,
{
    let s1 = fetched(s);
    match opcode_entry(mem_byte(s, s.pc)) {
        Some(info) => {
            let s2 = instr_effect(s1, info);
            if s2.pc == s1.pc {
                CpuView { pc: s2.pc.wrapping_add((info.len - 1) as u16), ..s2 }
            } else {
                s2
            }
        },
        None => s1,
    }
}

/// The state after `n` dispatcher rounds.
pub open spec fn steps(s: CpuView, n: nat) -> CpuView
    decreases n,
{
    if n == 0 {
        s
    } else {
        step_view(steps(s, (n - 1) as nat))
    }
}

/// Whether a stop reason correctly describes the final state it was
/// reported from.
pub open spec fn stop_matches(s: CpuView, r: StopReason) -> bool {
    match r {
        StopReason::Brk => opcode_entry(mem_byte(s, s.pc)) matches Some(info) && info.mnemonic
            is Brk,
        StopReason::UnknownOpcode(c) => c == mem_byte(s, s.pc) && opcode_entry(c) is None,
        StopReason::StepLimit => false,
    }
}

/// A complete run: some number of dispatcher rounds from `s0` reaches a
/// final state, the halting opcode is consumed, and the stop reason
/// describes that final state.
pub open spec fn runs_to(s0: CpuView, s1: CpuView, r: StopReason) -> bool {
    exists|n: nat|
        {
            &&& forall|i: nat| i < n ==> !is_final(#[trigger] steps(s0, i))
            &&& #[trigger] is_final(steps(s0, n))
            &&& s1 == fetched(steps(s0, n))
            &&& stop_matches(steps(s0, n), r)
        }
}

impl CPU {
    /// Semantic routines for the load, store and transfer group.
    #[verifier::rlimit(50)]
    fn execute_load_store(&mut self, info: OpInfo)
        requires
            table_wf(info),
            info.mnemonic is Lda || info.mnemonic is Ldx || info.mnemonic is Ldy
                || info.mnemonic is Sta || info.mnemonic is Stx || info.mnemonic is Sty
                || info.mnemonic is Tax || info.mnemonic is Tay || info.mnemonic is Tsx
                || info.mnemonic is Txa || info.mnemonic is Txs || info.mnemonic is Tya,
        ensures
            final(self)@ == instr_effect(old(self)@, info),
    {
        match info.mnemonic {
            Mnemonic::Lda => self.load_a_register(&info.mode),
            Mnemonic::Ldx => self.load_x_register(&info.mode),
            Mnemonic::Ldy => self.load_y_register(&info.mode),
            Mnemonic::Sta => self.store_accumulator(&info.mode),
            Mnemonic::Stx => self.store_x_register(&info.mode),
            Mnemonic::Sty => self.store_y_register(&info.mode),
            Mnemonic::Tax => self.transfer_accumulator_x(),
            Mnemonic::Tay => self.transfer_accumulator_y(),
            Mnemonic::Tsx => self.transfer_stack_pointer_to_x(),
            Mnemonic::Txa => self.transfer_x_accumulator(),
            Mnemonic::Txs => self.transfer_x_to_stack_pointer(),
            Mnemonic::Tya => self.transfer_y_accumulator(),
            // Unreachable: the precondition names every mnemonic this
            // group handles.
            _ => {
            },
        }
    }

    /// Semantic routines for the arithmetic group: add, subtract, compare,
    /// increment and decrement.
    #[verifier::rlimit(50)]
    fn execute_arithmetic(&mut self, info: OpInfo)
        requires
            table_wf(info),
            info.mnemonic is Adc || info.mnemonic is Sbc || info.mnemonic is Cmp
                || info.mnemonic is Cpx || info.mnemonic is Cpy || info.mnemonic is Inc
                || info.mnemonic is Inx || info.mnemonic is Iny || info.mnemonic is Dec
                || info.mnemonic is Dex || info.mnemonic is Dey,
        ensures
            final(self)@ == instr_effect(old(self)@, info),
    {
        match info.mnemonic {
            Mnemonic::Adc => self.adc(&info.mode),
            Mnemonic::Sbc => self.subtract_with_carry(&info.mode),
            Mnemonic::Cmp => self.cmp(&info.mode, self.register_a),
            Mnemonic::Cpx => self.cmp(&info.mode, self.register_x),
            Mnemonic::Cpy => self.cmp(&info.mode, self.register_y),
            Mnemonic::Inc => self.increment_memory(&info.mode),
            Mnemonic::Inx => self.increment_register_x(),
            Mnemonic::Iny => self.increment_register_y(),
            Mnemonic::Dec => self.decrement_memory(&info.mode),
            Mnemonic::Dex => self.decrement_register_x(),
            Mnemonic::Dey => self.decrement_register_y(),
            // Unreachable: the precondition names every mnemonic this
            // group handles.
            _ => {
            },
        }
    }

    /// Semantic routines for the bitwise group: logic, the bit test, and
    /// the shifts and rotates.
    #[verifier::rlimit(50)]
    fn execute_logic(&mut self, info: OpInfo)
        requires
            table_wf(info),
            info.mnemonic is And || info.mnemonic is Eor || info.mnemonic is Ora
                || info.mnemonic is Bit || info.mnemonic is Asl || info.mnemonic is AslA
                || info.mnemonic is Lsr || info.mnemonic is LsrA || info.mnemonic is Rol
                || info.mnemonic is RolA || info.mnemonic is Ror || info.mnemonic is RorA,
        ensures
            final(self)@ == instr_effect(old(self)@, info),
    {
        match info.mnemonic {
            Mnemonic::And => self.and(&info.mode),
            Mnemonic::Eor => self.exclusive_or(&info.mode),
            Mnemonic::Ora => self.logical_inclusive_or(&info.mode),
            Mnemonic::Bit => self.bit(&info.mode),
            Mnemonic::Asl => self.asl(&info.mode),
            Mnemonic::AslA => self.asl_accumulator(),
            Mnemonic::Lsr => self.logical_shift_right(&info.mode),
            Mnemonic::LsrA => self.logical_shift_right_accumulator(),
            Mnemonic::Rol => self.rotate_left(&info.mode),
            Mnemonic::RolA => self.rotate_left_accumulator(),
            Mnemonic::Ror => self.rotate_right(&info.mode),
            Mnemonic::RorA => self.rotate_right_accumulator(),
            // Unreachable: the precondition names every mnemonic this
            // group handles.
            _ => {
            },
        }
    }

    /// Semantic routines for the control-flow group: branches, jumps and
    /// returns.
    #[verifier::rlimit(50)]
    fn execute_control(&mut self, info: OpInfo)
        requires
            table_wf(info),
            info.mnemonic is Bcc || info.mnemonic is Bcs || info.mnemonic is Beq
                || info.mnemonic is Bmi || info.mnemonic is Bne || info.mnemonic is Bpl
                || info.mnemonic is Bvc || info.mnemonic is Bvs || info.mnemonic is JmpAbs
                || info.mnemonic is JmpInd || info.mnemonic is Jsr || info.mnemonic is Rts
                || info.mnemonic is Rti,
        ensures
            final(self)@ == instr_effect(old(self)@, info),
    {
        match info.mnemonic {
            Mnemonic::Bcc => self.branch((self.status & FLAG_CARRY) == 0),
            Mnemonic::Bcs => self.branch((self.status & FLAG_CARRY) != 0),
            Mnemonic::Beq => self.branch((self.status & FLAG_ZERO) != 0),
            Mnemonic::Bmi => self.branch((self.status & FLAG_NEGATIVE) != 0),
            Mnemonic::Bne => self.branch((self.status & FLAG_ZERO) == 0),
            Mnemonic::Bpl => self.branch((self.status & FLAG_NEGATIVE) == 0),
            Mnemonic::Bvc => self.branch((self.status & FLAG_OVERFLOW) == 0),
            Mnemonic::Bvs => self.branch((self.status & FLAG_OVERFLOW) != 0),
            Mnemonic::JmpAbs => self.jump_absolute(),
            Mnemonic::JmpInd => self.jump_indirect(),
            Mnemonic::Jsr => self.jump_sub_routine(),
            Mnemonic::Rts => {
                let w = self.stack_pop_u16();
                self.program_counter = w.wrapping_add(1);
            },
            Mnemonic::Rti => self.return_from_interrupt(),
            // Unreachable: the precondition names every mnemonic this
            // group handles.
            _ => {
            },
        }
    }

    /// Semantic routines for the stack and flag group, together with NOP;
    /// BRK is a no-op here because the dispatcher returns on it before
    /// executing anything.
    #[verifier::rlimit(50)]
    fn execute_stack_flags(&mut self, info: OpInfo)
        requires
            table_wf(info),
            info.mnemonic is Pha || info.mnemonic is Php || info.mnemonic is Pla
                || info.mnemonic is Plp || info.mnemonic is Clc || info.mnemonic is Cld
                || info.mnemonic is Cli || info.mnemonic is Clv || info.mnemonic is Sec
                || info.mnemonic is Sed || info.mnemonic is Sei || info.mnemonic is Nop
                || info.mnemonic is Brk,
        ensures
            final(self)@ == instr_effect(old(self)@, info),
    {
        match info.mnemonic {
            Mnemonic::Pha => self.stack_push(self.register_a),
            Mnemonic::Php => self.push_processor_status(),
            Mnemonic::Pla => self.pull_accumulator(),
            Mnemonic::Plp => self.pull_processor_status(),
            Mnemonic::Clc => self.clear_carry_flag(),
            Mnemonic::Cld => self.clear_decimal_flag(),
            Mnemonic::Cli => self.clear_interrupt_flag(),
            Mnemonic::Clv => self.clear_overflow_flag(),
            Mnemonic::Sec => self.set_carry_flag(),
            Mnemonic::Sed => self.set_decimal_flag(),
            Mnemonic::Sei => self.set_interrupt_disable(),
            // NOP, and BRK (a no-op here): the state is untouched.
            _ => {
            },
        }
    }

    /// Run the semantic routine for one decoded instruction. PC already
    /// points past the opcode byte. BRK is a no-op here; the caller
    /// returns before anything else happens.
    fn execute(&mut self, info: OpInfo)
        requires
            table_wf(info),
        ensures
            final(self)@ == instr_effect(old(self)@, info),
    {
        match info.mnemonic {
            Mnemonic::Lda | Mnemonic::Ldx | Mnemonic::Ldy | Mnemonic::Sta | Mnemonic::Stx
                | Mnemonic::Sty | Mnemonic::Tax | Mnemonic::Tay | Mnemonic::Tsx | Mnemonic::Txa
                | Mnemonic::Txs | Mnemonic::Tya => self.execute_load_store(info),
            Mnemonic::Adc | Mnemonic::Sbc | Mnemonic::Cmp | Mnemonic::Cpx | Mnemonic::Cpy
                | Mnemonic::Inc | Mnemonic::Inx | Mnemonic::Iny | Mnemonic::Dec | Mnemonic::Dex
                | Mnemonic::Dey => self.execute_arithmetic(info),
            Mnemonic::And | Mnemonic::Eor | Mnemonic::Ora | Mnemonic::Bit | Mnemonic::Asl
                | Mnemonic::AslA | Mnemonic::Lsr | Mnemonic::LsrA | Mnemonic::Rol
                | Mnemonic::RolA | Mnemonic::Ror | Mnemonic::RorA => self.execute_logic(info),
            Mnemonic::Bcc | Mnemonic::Bcs | Mnemonic::Beq | Mnemonic::Bmi | Mnemonic::Bne
                | Mnemonic::Bpl | Mnemonic::Bvc | Mnemonic::Bvs | Mnemonic::JmpAbs
                | Mnemonic::JmpInd | Mnemonic::Jsr | Mnemonic::Rts | Mnemonic::Rti => self
                .execute_control(info),
            Mnemonic::Pha | Mnemonic::Php | Mnemonic::Pla | Mnemonic::Plp | Mnemonic::Clc
                | Mnemonic::Cld | Mnemonic::Cli | Mnemonic::Clv | Mnemonic::Sec | Mnemonic::Sed
                | Mnemonic::Sei | Mnemonic::Nop | Mnemonic::Brk => self.execute_stack_flags(info),
        }
    }

    /// Execute exactly one instruction. Returns `None` after an ordinary
    /// instruction, and `Some` — with the opcode byte consumed and
    /// nothing else changed — when the fetched byte is BRK or undecodable.
    #[verifier::rlimit(50)]
    pub fn step(&mut self) -> (r: Option<StopReason>)
        ensures
            r is None ==> !is_final(old(self)@) && final(self)@ == step_view(old(self)@),
            r matches Some(reason) ==> is_final(old(self)@) && final(self)@ == fetched(old(self)@)
                && stop_matches(old(self)@, reason) && !(reason is StepLimit),
    {
        let code = self.mem_read(self.program_counter);
        self.program_counter = self.program_counter.wrapping_add(1);
        let saved_pc = self.program_counter;
        match opcode_lookup(code) {
            None => Some(StopReason::UnknownOpcode(code)),
            Some(info) => {
                match info.mnemonic {
                    Mnemonic::Brk => {
                        return Some(StopReason::Brk);
                    },
                    _ => {
                    },
                }
                self.execute(info);
                if saved_pc == self.program_counter {
                    self.program_counter = self.program_counter.wrapping_add((info.len - 1) as u16);
                }
                None
            },
        }
    }

    /// Run until BRK or a decode error, with no callback. The loop
    /// carries a step budget of `u64::MAX` instructions so that it
    /// provably terminates; a `StepLimit` result pins the final state to
    /// exactly that many dispatcher rounds, none of which was final.
    pub fn run(&mut self) -> (r: StopReason)
        ensures
            !(r is StepLimit) ==> runs_to(old(self)@, final(self)@, r),
            r is StepLimit ==> final(self)@ == steps(old(self)@, u64::MAX as nat) && (forall|i: nat|
                i < u64::MAX as nat ==> !is_final(#[trigger] steps(old(self)@, i))),
    {
        let ghost s0 = self@;
        let ghost mut n: nat = 0;
        let mut budget: u64 = u64::MAX;
        while budget > 0
            invariant
                self@ == steps(s0, n),
                forall|i: nat| i < n ==> !is_final(#[trigger] steps(s0, i)),
                s0 == old(self)@,
                n == u64::MAX - budget,
            decreases budget,
        {
            match self.step() {
                Some(reason) => {
                    return reason;
                },
                None => {
                    proof {
                        n = n + 1;
                    }
                },
            }
            budget = budget - 1;
        }
        StopReason::StepLimit
    }

    /// Run until BRK or a decode error, invoking the host callback after
    /// every executed instruction. The callback may change any part of
    /// the state, so after the first instruction no relation between the
    /// initial and final states can honestly be claimed beyond the meaning
    /// of the stop reason; the first fetch, which no callback precedes, is
    /// pinned exactly. The step budget is as in [`CPU::run`].
    pub fn run_with_callback<H: Hook>(&mut self, hook: &mut H) -> (r: StopReason)
        ensures
            r matches StopReason::UnknownOpcode(c) ==> opcode_entry(c) is None,
            is_final(old(self)@) ==> !(r is StepLimit) && final(self)@ == fetched(old(self)@)
                && stop_matches(old(self)@, r),
    {
        let mut budget: u64 = u64::MAX;
        while budget > 0
            invariant
                budget == u64::MAX ==> self@ == old(self)@,
                budget < u64::MAX ==> !is_final(old(self)@),
            decreases budget,
        {
            match self.step() {
                Some(reason) => {
                    return reason;
                },
                None => {
                },
            }
            hook.on_instruction(self);
            budget = budget - 1;
        }
        StopReason::StepLimit
    }

    /// Load a program image, reset, and run it to completion. A
    /// `StepLimit` result pins the final state to exactly `u64::MAX`
    /// dispatcher rounds from the freshly reset state, none of them final.
    pub fn load_and_run(&mut self, program: Vec<u8>) -> (r: StopReason)
        requires
            program@.len() <= MEM_SIZE - LOAD_ADDR,
        ensures
            !(r is StepLimit) ==> runs_to(
                reset_view(load_view(old(self)@, program@)),
                final(self)@,
                r,
            ),
            r is StepLimit ==> final(self)@ == steps(
                reset_view(load_view(old(self)@, program@)),
                u64::MAX as nat,
            ) && (forall|i: nat|
                i < u64::MAX as nat ==> !is_final(
                    #[trigger] steps(reset_view(load_view(old(self)@, program@)), i),
                )),
    {
        self.load(program);
        self.reset();
        self.run()
    }
}

} // verus!
