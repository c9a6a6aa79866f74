use vstd::prelude::*;

verus! {

/// The twelve addressing modes of the 6502.
#[derive(Copy, Clone, PartialEq, Eq, Structural, Debug)]
pub enum AddrMode {
    Imp,
    Imm,
    Zp0,
    Zpx,
    Zpy,
    Rel,
    Abs,
    Abx,
    Aby,
    Ind,
    Izx,
    Izy,
}

/// The operation performed by an opcode.  `Xxx` stands for the
/// unofficial opcodes that are treated as stalls of the table's cycle
/// count.
#[derive(Copy, Clone, PartialEq, Eq, Structural, Debug)]
pub enum Op {
    Adc,
    And,
    Asl,
    Bcc,
    Bcs,
    Beq,
    Bit,
    Bmi,
    Bne,
    Bpl,
    Brk,
    Bvc,
    Bvs,
    Clc,
    Cld,
    Cli,
    Clv,
    Cmp,
    Cpx,
    Cpy,
    Dec,
    Dex,
    Dey,
    Eor,
    Inc,
    Inx,
    Iny,
    Jmp,
    Jsr,
    Lda,
    Ldx,
    Ldy,
    Lsr,
    Nop,
    Ora,
    Pha,
    Php,
    Pla,
    Plp,
    Rol,
    Ror,
    Rti,
    Rts,
    Sbc,
    Sec,
    Sed,
    Sei,
    Sta,
    Stx,
    Sty,
    Tax,
    Tay,
    Tsx,
    Txa,
    Txs,
    Tya,
    Xxx,
}

/// One entry of the opcode table.
pub struct Instr {
    pub name: &'static str,
    pub op: Op,
    pub addr_mode: AddrMode,
    pub cycles: u8,
}

impl Instr {
    pub fn new(name: &'static str, op: Op, addr_mode: AddrMode, cycles: u8) -> (r: Instr)
        ensures
            r.name == name,
            r.op == op,
            r.addr_mode == addr_mode,
            r.cycles == cycles,
    {
        Instr { name, op, addr_mode, cycles }
    }
}

pub open spec fn spec_op_row0(i: int) -> Op {
    if i == 0 { Op::Brk } else if i == 1 { Op::Ora } else if i == 2 { Op::Xxx } else if i == 3 { Op::Xxx } else if i == 4 { Op::Nop } else if i == 5 { Op::Ora } else if i == 6 { Op::Asl } else if i == 7 { Op::Xxx } else if i == 8 { Op::Php } else if i == 9 { Op::Ora } else if i == 10 { Op::Asl } else if i == 11 { Op::Xxx } else if i == 12 { Op::Nop } else if i == 13 { Op::Ora } else if i == 14 { Op::Asl } else if i == 15 { Op::Xxx } else { Op::Xxx }
}

pub open spec fn spec_op_row1(i: int) -> Op {
    if i == 16 { Op::Bpl } else if i == 17 { Op::Ora } else if i == 18 { Op::Xxx } else if i == 19 { Op::Xxx } else if i == 20 { Op::Nop } else if i == 21 { Op::Ora } else if i == 22 { Op::Asl } else if i == 23 { Op::Xxx } else if i == 24 { Op::Clc } else if i == 25 { Op::Ora } else if i == 26 { Op::Nop } else if i == 27 { Op::Xxx } else if i == 28 { Op::Nop } else if i == 29 { Op::Ora } else if i == 30 { Op::Asl } else if i == 31 { Op::Xxx } else { Op::Xxx }
}

pub open spec fn spec_op_row2(i: int) -> Op {
    if i == 32 { Op::Jsr } else if i == 33 { Op::And } else if i == 34 { Op::Xxx } else if i == 35 { Op::Xxx } else if i == 36 { Op::Bit } else if i == 37 { Op::And } else if i == 38 { Op::Rol } else if i == 39 { Op::Xxx } else if i == 40 { Op::Plp } else if i == 41 { Op::And } else if i == 42 { Op::Rol } else if i == 43 { Op::Xxx } else if i == 44 { Op::Bit } else if i == 45 { Op::And } else if i == 46 { Op::Rol } else if i == 47 { Op::Xxx } else { Op::Xxx }
}

pub open spec fn spec_op_row3(i: int) -> Op {
    if i == 48 { Op::Bmi } else if i == 49 { Op::And } else if i == 50 { Op::Xxx } else if i == 51 { Op::Xxx } else if i == 52 { Op::Nop } else if i == 53 { Op::And } else if i == 54 { Op::Rol } else if i == 55 { Op::Xxx } else if i == 56 { Op::Sec } else if i == 57 { Op::And } else if i == 58 { Op::Nop } else if i == 59 { Op::Xxx } else if i == 60 { Op::Nop } else if i == 61 { Op::And } else if i == 62 { Op::Rol } else if i == 63 { Op::Xxx } else { Op::Xxx }
}

pub open spec fn spec_op_row4(i: int) -> Op {
    if i == 64 { Op::Rti } else if i == 65 { Op::Eor } else if i == 66 { Op::Xxx } else if i == 67 { Op::Xxx } else if i == 68 { Op::Nop } else if i == 69 { Op::Eor } else if i == 70 { Op::Lsr } else if i == 71 { Op::Xxx } else if i == 72 { Op::Pha } else if i == 73 { Op::Eor } else if i == 74 { Op::Lsr } else if i == 75 { Op::Xxx } else if i == 76 { Op::Jmp } else if i == 77 { Op::Eor } else if i == 78 { Op::Lsr } else if i == 79 { Op::Xxx } else { Op::Xxx }
}

pub open spec fn spec_op_row5(i: int) -> Op {
    if i == 80 { Op::Bvc } else if i == 81 { Op::Eor } else if i == 82 { Op::Xxx } else if i == 83 { Op::Xxx } else if i == 84 { Op::Nop } else if i == 85 { Op::Eor } else if i == 86 { Op::Lsr } else if i == 87 { Op::Xxx } else if i == 88 { Op::Cli } else if i == 89 { Op::Eor } else if i == 90 { Op::Nop } else if i == 91 { Op::Xxx } else if i == 92 { Op::Nop } else if i == 93 { Op::Eor } else if i == 94 { Op::Lsr } else if i == 95 { Op::Xxx } else { Op::Xxx }
}

pub open spec fn spec_op_row6(i: int) -> Op {
    if i == 96 { Op::Rts } else if i == 97 { Op::Adc } else if i == 98 { Op::Xxx } else if i == 99 { Op::Xxx } else if i == 100 { Op::Nop } else if i == 101 { Op::Adc } else if i == 102 { Op::Ror } else if i == 103 { Op::Xxx } else if i == 104 { Op::Pla } else if i == 105 { Op::Adc } else if i == 106 { Op::Ror } else if i == 107 { Op::Xxx } else if i == 108 { Op::Jmp } else if i == 109 { Op::Adc } else if i == 110 { Op::Ror } else if i == 111 { Op::Xxx } else { Op::Xxx }
}

pub open spec fn spec_op_row7(i: int) -> Op {
    if i == 112 { Op::Bvs } else if i == 113 { Op::Adc } else if i == 114 { Op::Xxx } else if i == 115 { Op::Xxx } else if i == 116 { Op::Nop } else if i == 117 { Op::Adc } else if i == 118 { Op::Ror } else if i == 119 { Op::Xxx } else if i == 120 { Op::Sei } else if i == 121 { Op::Adc } else if i == 122 { Op::Nop } else if i == 123 { Op::Xxx } else if i == 124 { Op::Nop } else if i == 125 { Op::Adc } else if i == 126 { Op::Ror } else if i == 127 { Op::Xxx } else { Op::Xxx }
}

pub open spec fn spec_op_row8(i: int) -> Op {
    if i == 128 { Op::Nop } else if i == 129 { Op::Sta } else if i == 130 { Op::Nop } else if i == 131 { Op::Xxx } else if i == 132 { Op::Sty } else if i == 133 { Op::Sta } else if i == 134 { Op::Stx } else if i == 135 { Op::Xxx } else if i == 136 { Op::Dey } else if i == 137 { Op::Nop } else if i == 138 { Op::Txa } else if i == 139 { Op::Xxx } else if i == 140 { Op::Sty } else if i == 141 { Op::Sta } else if i == 142 { Op::Stx } else if i == 143 { Op::Xxx } else { Op::Xxx }
}

pub open spec fn spec_op_row9(i: int) -> Op {
    if i == 144 { Op::Bcc } else if i == 145 { Op::Sta } else if i == 146 { Op::Xxx } else if i == 147 { Op::Xxx } else if i == 148 { Op::Sty } else if i == 149 { Op::Sta } else if i == 150 { Op::Stx } else if i == 151 { Op::Xxx } else if i == 152 { Op::Tya } else if i == 153 { Op::Sta } else if i == 154 { Op::Txs } else if i == 155 { Op::Xxx } else if i == 156 { Op::Nop } else if i == 157 { Op::Sta } else if i == 158 { Op::Xxx } else if i == 159 { Op::Xxx } else { Op::Xxx }
}

pub open spec fn spec_op_row10(i: int) -> Op {
    if i == 160 { Op::Ldy } else if i == 161 { Op::Lda } else if i == 162 { Op::Ldx } else if i == 163 { Op::Xxx } else if i == 164 { Op::Ldy } else if i == 165 { Op::Lda } else if i == 166 { Op::Ldx } else if i == 167 { Op::Xxx } else if i == 168 { Op::Tay } else if i == 169 { Op::Lda } else if i == 170 { Op::Tax } else if i == 171 { Op::Xxx } else if i == 172 { Op::Ldy } else if i == 173 { Op::Lda } else if i == 174 { Op::Ldx } else if i == 175 { Op::Xxx } else { Op::Xxx }
}

pub open spec fn spec_op_row11(i: int) -> Op {
    if i == 176 { Op::Bcs } else if i == 177 { Op::Lda } else if i == 178 { Op::Xxx } else if i == 179 { Op::Xxx } else if i == 180 { Op::Ldy } else if i == 181 { Op::Lda } else if i == 182 { Op::Ldx } else if i == 183 { Op::Xxx } else if i == 184 { Op::Clv } else if i == 185 { Op::Lda } else if i == 186 { Op::Tsx } else if i == 187 { Op::Xxx } else if i == 188 { Op::Ldy } else if i == 189 { Op::Lda } else if i == 190 { Op::Ldx } else if i == 191 { Op::Xxx } else { Op::Xxx }
}

pub open spec fn spec_op_row12(i: int) -> Op {
    if i == 192 { Op::Cpy } else if i == 193 { Op::Cmp } else if i == 194 { Op::Nop } else if i == 195 { Op::Xxx } else if i == 196 { Op::Cpy } else if i == 197 { Op::Cmp } else if i == 198 { Op::Dec } else if i == 199 { Op::Xxx } else if i == 200 { Op::Iny } else if i == 201 { Op::Cmp } else if i == 202 { Op::Dex } else if i == 203 { Op::Xxx } else if i == 204 { Op::Cpy } else if i == 205 { Op::Cmp } else if i == 206 { Op::Dec } else if i == 207 { Op::Xxx } else { Op::Xxx }
}

pub open spec fn spec_op_row13(i: int) -> Op {
    if i == 208 { Op::Bne } else if i == 209 { Op::Cmp } else if i == 210 { Op::Xxx } else if i == 211 { Op::Xxx } else if i == 212 { Op::Nop } else if i == 213 { Op::Cmp } else if i == 214 { Op::Dec } else if i == 215 { Op::Xxx } else if i == 216 { Op::Cld } else if i == 217 { Op::Cmp } else if i == 218 { Op::Nop } else if i == 219 { Op::Xxx } else if i == 220 { Op::Nop } else if i == 221 { Op::Cmp } else if i == 222 { Op::Dec } else if i == 223 { Op::Xxx } else { Op::Xxx }
}

pub open spec fn spec_op_row14(i: int) -> Op {
    if i == 224 { Op::Cpx } else if i == 225 { Op::Sbc } else if i == 226 { Op::Nop } else if i == 227 { Op::Xxx } else if i == 228 { Op::Cpx } else if i == 229 { Op::Sbc } else if i == 230 { Op::Inc } else if i == 231 { Op::Xxx } else if i == 232 { Op::Inx } else if i == 233 { Op::Sbc } else if i == 234 { Op::Nop } else if i == 235 { Op::Sbc } else if i == 236 { Op::Cpx } else if i == 237 { Op::Sbc } else if i == 238 { Op::Inc } else if i == 239 { Op::Xxx } else { Op::Xxx }
}

pub open spec fn spec_op_row15(i: int) -> Op {
    if i == 240 { Op::Beq } else if i == 241 { Op::Sbc } else if i == 242 { Op::Xxx } else if i == 243 { Op::Xxx } else if i == 244 { Op::Nop } else if i == 245 { Op::Sbc } else if i == 246 { Op::Inc } else if i == 247 { Op::Xxx } else if i == 248 { Op::Sed } else if i == 249 { Op::Sbc } else if i == 250 { Op::Nop } else if i == 251 { Op::Xxx } else if i == 252 { Op::Nop } else if i == 253 { Op::Sbc } else if i == 254 { Op::Inc } else if i == 255 { Op::Xxx } else { Op::Xxx }
}

pub open spec fn spec_addr_mode_row0(i: int) -> AddrMode {
    if i == 0 { AddrMode::Imm } else if i == 1 { AddrMode::Izx } else if i == 2 { AddrMode::Imp } else if i == 3 { AddrMode::Imp } else if i == 4 { AddrMode::Imp } else if i == 5 { AddrMode::Zp0 } else if i == 6 { AddrMode::Zp0 } else if i == 7 { AddrMode::Imp } else if i == 8 { AddrMode::Imp } else if i == 9 { AddrMode::Imm } else if i == 10 { AddrMode::Imp } else if i == 11 { AddrMode::Imp } else if i == 12 { AddrMode::Imp } else if i == 13 { AddrMode::Abs } else if i == 14 { AddrMode::Abs } else if i == 15 { AddrMode::Imp } else { AddrMode::Imp }
}

pub open spec fn spec_addr_mode_row1(i: int) -> AddrMode {
    if i == 16 { AddrMode::Rel } else if i == 17 { AddrMode::Izy } else if i == 18 { AddrMode::Imp } else if i == 19 { AddrMode::Imp } else if i == 20 { AddrMode::Imp } else if i == 21 { AddrMode::Zpx } else if i == 22 { AddrMode::Zpx } else if i == 23 { AddrMode::Imp } else if i == 24 { AddrMode::Imp } else if i == 25 { AddrMode::Aby } else if i == 26 { AddrMode::Imp } else if i == 27 { AddrMode::Imp } else if i == 28 { AddrMode::Imp } else if i == 29 { AddrMode::Abx } else if i == 30 { AddrMode::Abx } else if i == 31 { AddrMode::Imp } else { AddrMode::Imp }
}

pub open spec fn spec_addr_mode_row2(i: int) -> AddrMode {
    if i == 32 { AddrMode::Abs } else if i == 33 { AddrMode::Izx } else if i == 34 { AddrMode::Imp } else if i == 35 { AddrMode::Imp } else if i == 36 { AddrMode::Zp0 } else if i == 37 { AddrMode::Zp0 } else if i == 38 { AddrMode::Zp0 } else if i == 39 { AddrMode::Imp } else if i == 40 { AddrMode::Imp } else if i == 41 { AddrMode::Imm } else if i == 42 { AddrMode::Imp } else if i == 43 { AddrMode::Imp } else if i == 44 { AddrMode::Abs } else if i == 45 { AddrMode::Abs } else if i == 46 { AddrMode::Abs } else if i == 47 { AddrMode::Imp } else { AddrMode::Imp }
}

pub open spec fn spec_addr_mode_row3(i: int) -> AddrMode {
    if i == 48 { AddrMode::Rel } else if i == 49 { AddrMode::Izy } else if i == 50 { AddrMode::Imp } else if i == 51 { AddrMode::Imp } else if i == 52 { AddrMode::Imp } else if i == 53 { AddrMode::Zpx } else if i == 54 { AddrMode::Zpx } else if i == 55 { AddrMode::Imp } else if i == 56 { AddrMode::Imp } else if i == 57 { AddrMode::Aby } else if i == 58 { AddrMode::Imp } else if i == 59 { AddrMode::Imp } else if i == 60 { AddrMode::Imp } else if i == 61 { AddrMode::Abx } else if i == 62 { AddrMode::Abx } else if i == 63 { AddrMode::Imp } else { AddrMode::Imp }
}

pub open spec fn spec_addr_mode_row4(i: int) -> AddrMode {
    if i == 64 { AddrMode::Imp } else if i == 65 { AddrMode::Izx } else if i == 66 { AddrMode::Imp } else if i == 67 { AddrMode::Imp } else if i == 68 { AddrMode::Imp } else if i == 69 { AddrMode::Zp0 } else if i == 70 { AddrMode::Zp0 } else if i == 71 { AddrMode::Imp } else if i == 72 { AddrMode::Imp } else if i == 73 { AddrMode::Imm } else if i == 74 { AddrMode::Imp } else if i == 75 { AddrMode::Imp } else if i == 76 { AddrMode::Abs } else if i == 77 { AddrMode::Abs } else if i == 78 { AddrMode::Abs } else if i == 79 { AddrMode::Imp } else { AddrMode::Imp }
}

pub open spec fn spec_addr_mode_row5(i: int) -> AddrMode {
    if i == 80 { AddrMode::Rel } else if i == 81 { AddrMode::Izy } else if i == 82 { AddrMode::Imp } else if i == 83 { AddrMode::Imp } else if i == 84 { AddrMode::Imp } else if i == 85 { AddrMode::Zpx } else if i == 86 { AddrMode::Zpx } else if i == 87 { AddrMode::Imp } else if i == 88 { AddrMode::Imp } else if i == 89 { AddrMode::Aby } else if i == 90 { AddrMode::Imp } else if i == 91 { AddrMode::Imp } else if i == 92 { AddrMode::Imp } else if i == 93 { AddrMode::Abx } else if i == 94 { AddrMode::Abx } else if i == 95 { AddrMode::Imp } else { AddrMode::Imp }
}

pub open spec fn spec_addr_mode_row6(i: int) -> AddrMode {
    if i == 96 { AddrMode::Imp } else if i == 97 { AddrMode::Izx } else if i == 98 { AddrMode::Imp } else if i == 99 { AddrMode::Imp } else if i == 100 { AddrMode::Imp } else if i == 101 { AddrMode::Zp0 } else if i == 102 { AddrMode::Zp0 } else if i == 103 { AddrMode::Imp } else if i == 104 { AddrMode::Imp } else if i == 105 { AddrMode::Imm } else if i == 106 { AddrMode::Imp } else if i == 107 { AddrMode::Imp } else if i == 108 { AddrMode::Ind } else if i == 109 { AddrMode::Abs } else if i == 110 { AddrMode::Abs } else if i == 111 { AddrMode::Imp } else { AddrMode::Imp }
}

pub open spec fn spec_addr_mode_row7(i: int) -> AddrMode {
    if i == 112 { AddrMode::Rel } else if i == 113 { AddrMode::Izy } else if i == 114 { AddrMode::Imp } else if i == 115 { AddrMode::Imp } else if i == 116 { AddrMode::Imp } else if i == 117 { AddrMode::Zpx } else if i == 118 { AddrMode::Zpx } else if i == 119 { AddrMode::Imp } else if i == 120 { AddrMode::Imp } else if i == 121 { AddrMode::Aby } else if i == 122 { AddrMode::Imp } else if i == 123 { AddrMode::Imp } else if i == 124 { AddrMode::Imp } else if i == 125 { AddrMode::Abx } else if i == 126 { AddrMode::Abx } else if i == 127 { AddrMode::Imp } else { AddrMode::Imp }
}

pub open spec fn spec_addr_mode_row8(i: int) -> AddrMode {
    if i == 128 { AddrMode::Imp } else if i == 129 { AddrMode::Izx } else if i == 130 { AddrMode::Imp } else if i == 131 { AddrMode::Imp } else if i == 132 { AddrMode::Zp0 } else if i == 133 { AddrMode::Zp0 } else if i == 134 { AddrMode::Zp0 } else if i == 135 { AddrMode::Imp } else if i == 136 { AddrMode::Imp } else if i == 137 { AddrMode::Imp } else if i == 138 { AddrMode::Imp } else if i == 139 { AddrMode::Imp } else if i == 140 { AddrMode::Abs } else if i == 141 { AddrMode::Abs } else if i == 142 { AddrMode::Abs } else if i == 143 { AddrMode::Imp } else { AddrMode::Imp }
}

pub open spec fn spec_addr_mode_row9(i: int) -> AddrMode {
    if i == 144 { AddrMode::Rel } else if i == 145 { AddrMode::Izy } else if i == 146 { AddrMode::Imp } else if i == 147 { AddrMode::Imp } else if i == 148 { AddrMode::Zpx } else if i == 149 { AddrMode::Zpx } else if i == 150 { AddrMode::Zpy } else if i == 151 { AddrMode::Imp } else if i == 152 { AddrMode::Imp } else if i == 153 { AddrMode::Aby } else if i == 154 { AddrMode::Imp } else if i == 155 { AddrMode::Imp } else if i == 156 { AddrMode::Imp } else if i == 157 { AddrMode::Abx } else if i == 158 { AddrMode::Imp } else if i == 159 { AddrMode::Imp } else { AddrMode::Imp }
}

pub open spec fn spec_addr_mode_row10(i: int) -> AddrMode {
    if i == 160 { AddrMode::Imm } else if i == 161 { AddrMode::Izx } else if i == 162 { AddrMode::Imm } else if i == 163 { AddrMode::Imp } else if i == 164 { AddrMode::Zp0 } else if i == 165 { AddrMode::Zp0 } else if i == 166 { AddrMode::Zp0 } else if i == 167 { AddrMode::Imp } else if i == 168 { AddrMode::Imp } else if i == 169 { AddrMode::Imm } else if i == 170 { AddrMode::Imp } else if i == 171 { AddrMode::Imp } else if i == 172 { AddrMode::Abs } else if i == 173 { AddrMode::Abs } else if i == 174 { AddrMode::Abs } else if i == 175 { AddrMode::Imp } else { AddrMode::Imp }
}

pub open spec fn spec_addr_mode_row11(i: int) -> AddrMode {
    if i == 176 { AddrMode::Rel } else if i == 177 { AddrMode::Izy } else if i == 178 { AddrMode::Imp } else if i == 179 { AddrMode::Imp } else if i == 180 { AddrMode::Zpx } else if i == 181 { AddrMode::Zpx } else if i == 182 { AddrMode::Zpy } else if i == 183 { AddrMode::Imp } else if i == 184 { AddrMode::Imp } else if i == 185 { AddrMode::Aby } else if i == 186 { AddrMode::Imp } else if i == 187 { AddrMode::Imp } else if i == 188 { AddrMode::Abx } else if i == 189 { AddrMode::Abx } else if i == 190 { AddrMode::Aby } else if i == 191 { AddrMode::Imp } else { AddrMode::Imp }
}

pub open spec fn spec_addr_mode_row12(i: int) -> AddrMode {
    if i == 192 { AddrMode::Imm } else if i == 193 { AddrMode::Izx } else if i == 194 { AddrMode::Imp } else if i == 195 { AddrMode::Imp } else if i == 196 { AddrMode::Zp0 } else if i == 197 { AddrMode::Zp0 } else if i == 198 { AddrMode::Zp0 } else if i == 199 { AddrMode::Imp } else if i == 200 { AddrMode::Imp } else if i == 201 { AddrMode::Imm } else if i == 202 { AddrMode::Imp } else if i == 203 { AddrMode::Imp } else if i == 204 { AddrMode::Abs } else if i == 205 { AddrMode::Abs } else if i == 206 { AddrMode::Abs } else if i == 207 { AddrMode::Imp } else { AddrMode::Imp }
}

pub open spec fn spec_addr_mode_row13(i: int) -> AddrMode {
    if i == 208 { AddrMode::Rel } else if i == 209 { AddrMode::Izy } else if i == 210 { AddrMode::Imp } else if i == 211 { AddrMode::Imp } else if i == 212 { AddrMode::Imp } else if i == 213 { AddrMode::Zpx } else if i == 214 { AddrMode::Zpx } else if i == 215 { AddrMode::Imp } else if i == 216 { AddrMode::Imp } else if i == 217 { AddrMode::Aby } else if i == 218 { AddrMode::Imp } else if i == 219 { AddrMode::Imp } else if i == 220 { AddrMode::Imp } else if i == 221 { AddrMode::Abx } else if i == 222 { AddrMode::Abx } else if i == 223 { AddrMode::Imp } else { AddrMode::Imp }
}

pub open spec fn spec_addr_mode_row14(i: int) -> AddrMode {
    if i == 224 { AddrMode::Imm } else if i == 225 { AddrMode::Izx } else if i == 226 { AddrMode::Imp } else if i == 227 { AddrMode::Imp } else if i == 228 { AddrMode::Zp0 } else if i == 229 { AddrMode::Zp0 } else if i == 230 { AddrMode::Zp0 } else if i == 231 { AddrMode::Imp } else if i == 232 { AddrMode::Imp } else if i == 233 { AddrMode::Imm } else if i == 234 { AddrMode::Imp } else if i == 235 { AddrMode::Imp } else if i == 236 { AddrMode::Abs } else if i == 237 { AddrMode::Abs } else if i == 238 { AddrMode::Abs } else if i == 239 { AddrMode::Imp } else { AddrMode::Imp }
}

pub open spec fn spec_addr_mode_row15(i: int) -> AddrMode {
    if i == 240 { AddrMode::Rel } else if i == 241 { AddrMode::Izy } else if i == 242 { AddrMode::Imp } else if i == 243 { AddrMode::Imp } else if i == 244 { AddrMode::Imp } else if i == 245 { AddrMode::Zpx } else if i == 246 { AddrMode::Zpx } else if i == 247 { AddrMode::Imp } else if i == 248 { AddrMode::Imp } else if i == 249 { AddrMode::Aby } else if i == 250 { AddrMode::Imp } else if i == 251 { AddrMode::Imp } else if i == 252 { AddrMode::Imp } else if i == 253 { AddrMode::Abx } else if i == 254 { AddrMode::Abx } else if i == 255 { AddrMode::Imp } else { AddrMode::Imp }
}

pub open spec fn spec_cycles_row0(i: int) -> u8 {
    if i == 0 { 7 } else if i == 1 { 6 } else if i == 2 { 2 } else if i == 3 { 8 } else if i == 4 { 3 } else if i == 5 { 3 } else if i == 6 { 5 } else if i == 7 { 5 } else if i == 8 { 3 } else if i == 9 { 2 } else if i == 10 { 2 } else if i == 11 { 2 } else if i == 12 { 4 } else if i == 13 { 4 } else if i == 14 { 6 } else if i == 15 { 6 } else { 2 }
}

pub open spec fn spec_cycles_row1(i: int) -> u8 {
    if i == 16 { 2 } else if i == 17 { 5 } else if i == 18 { 2 } else if i == 19 { 8 } else if i == 20 { 4 } else if i == 21 { 4 } else if i == 22 { 6 } else if i == 23 { 6 } else if i == 24 { 2 } else if i == 25 { 4 } else if i == 26 { 2 } else if i == 27 { 7 } else if i == 28 { 4 } else if i == 29 { 4 } else if i == 30 { 7 } else if i == 31 { 7 } else { 2 }
}

pub open spec fn spec_cycles_row2(i: int) -> u8 {
    if i == 32 { 6 } else if i == 33 { 6 } else if i == 34 { 2 } else if i == 35 { 8 } else if i == 36 { 3 } else if i == 37 { 3 } else if i == 38 { 5 } else if i == 39 { 5 } else if i == 40 { 4 } else if i == 41 { 2 } else if i == 42 { 2 } else if i == 43 { 2 } else if i == 44 { 4 } else if i == 45 { 4 } else if i == 46 { 6 } else if i == 47 { 6 } else { 2 }
}

pub open spec fn spec_cycles_row3(i: int) -> u8 {
    if i == 48 { 2 } else if i == 49 { 5 } else if i == 50 { 2 } else if i == 51 { 8 } else if i == 52 { 4 } else if i == 53 { 4 } else if i == 54 { 6 } else if i == 55 { 6 } else if i == 56 { 2 } else if i == 57 { 4 } else if i == 58 { 2 } else if i == 59 { 7 } else if i == 60 { 4 } else if i == 61 { 4 } else if i == 62 { 7 } else if i == 63 { 7 } else { 2 }
}

pub open spec fn spec_cycles_row4(i: int) -> u8 {
    if i == 64 { 6 } else if i == 65 { 6 } else if i == 66 { 2 } else if i == 67 { 8 } else if i == 68 { 3 } else if i == 69 { 3 } else if i == 70 { 5 } else if i == 71 { 5 } else if i == 72 { 3 } else if i == 73 { 2 } else if i == 74 { 2 } else if i == 75 { 2 } else if i == 76 { 3 } else if i == 77 { 4 } else if i == 78 { 6 } else if i == 79 { 6 } else { 2 }
}

pub open spec fn spec_cycles_row5(i: int) -> u8 {
    if i == 80 { 2 } else if i == 81 { 5 } else if i == 82 { 2 } else if i == 83 { 8 } else if i == 84 { 4 } else if i == 85 { 4 } else if i == 86 { 6 } else if i == 87 { 6 } else if i == 88 { 2 } else if i == 89 { 4 } else if i == 90 { 2 } else if i == 91 { 7 } else if i == 92 { 4 } else if i == 93 { 4 } else if i == 94 { 7 } else if i == 95 { 7 } else { 2 }
}

pub open spec fn spec_cycles_row6(i: int) -> u8 {
    if i == 96 { 6 } else if i == 97 { 6 } else if i == 98 { 2 } else if i == 99 { 8 } else if i == 100 { 3 } else if i == 101 { 3 } else if i == 102 { 5 } else if i == 103 { 5 } else if i == 104 { 4 } else if i == 105 { 2 } else if i == 106 { 2 } else if i == 107 { 2 } else if i == 108 { 5 } else if i == 109 { 4 } else if i == 110 { 6 } else if i == 111 { 6 } else { 2 }
}

pub open spec fn spec_cycles_row7(i: int) -> u8 {
    if i == 112 { 2 } else if i == 113 { 5 } else if i == 114 { 2 } else if i == 115 { 8 } else if i == 116 { 4 } else if i == 117 { 4 } else if i == 118 { 6 } else if i == 119 { 6 } else if i == 120 { 2 } else if i == 121 { 4 } else if i == 122 { 2 } else if i == 123 { 7 } else if i == 124 { 4 } else if i == 125 { 4 } else if i == 126 { 7 } else if i == 127 { 7 } else { 2 }
}

pub open spec fn spec_cycles_row8(i: int) -> u8 {
    if i == 128 { 2 } else if i == 129 { 6 } else if i == 130 { 2 } else if i == 131 { 6 } else if i == 132 { 3 } else if i == 133 { 3 } else if i == 134 { 3 } else if i == 135 { 3 } else if i == 136 { 2 } else if i == 137 { 2 } else if i == 138 { 2 } else if i == 139 { 2 } else if i == 140 { 4 } else if i == 141 { 4 } else if i == 142 { 4 } else if i == 143 { 4 } else { 2 }
}

pub open spec fn spec_cycles_row9(i: int) -> u8 {
    if i == 144 { 2 } else if i == 145 { 6 } else if i == 146 { 2 } else if i == 147 { 6 } else if i == 148 { 4 } else if i == 149 { 4 } else if i == 150 { 4 } else if i == 151 { 4 } else if i == 152 { 2 } else if i == 153 { 5 } else if i == 154 { 2 } else if i == 155 { 5 } else if i == 156 { 5 } else if i == 157 { 5 } else if i == 158 { 5 } else if i == 159 { 5 } else { 2 }
}

pub open spec fn spec_cycles_row10(i: int) -> u8 {
    if i == 160 { 2 } else if i == 161 { 6 } else if i == 162 { 2 } else if i == 163 { 6 } else if i == 164 { 3 } else if i == 165 { 3 } else if i == 166 { 3 } else if i == 167 { 3 } else if i == 168 { 2 } else if i == 169 { 2 } else if i == 170 { 2 } else if i == 171 { 2 } else if i == 172 { 4 } else if i == 173 { 4 } else if i == 174 { 4 } else if i == 175 { 4 } else { 2 }
}

pub open spec fn spec_cycles_row11(i: int) -> u8 {
    if i == 176 { 2 } else if i == 177 { 5 } else if i == 178 { 2 } else if i == 179 { 5 } else if i == 180 { 4 } else if i == 181 { 4 } else if i == 182 { 4 } else if i == 183 { 4 } else if i == 184 { 2 } else if i == 185 { 4 } else if i == 186 { 2 } else if i == 187 { 4 } else if i == 188 { 4 } else if i == 189 { 4 } else if i == 190 { 4 } else if i == 191 { 4 } else { 2 }
}

pub open spec fn spec_cycles_row12(i: int) -> u8 {
    if i == 192 { 2 } else if i == 193 { 6 } else if i == 194 { 2 } else if i == 195 { 8 } else if i == 196 { 3 } else if i == 197 { 3 } else if i == 198 { 5 } else if i == 199 { 5 } else if i == 200 { 2 } else if i == 201 { 2 } else if i == 202 { 2 } else if i == 203 { 2 } else if i == 204 { 4 } else if i == 205 { 4 } else if i == 206 { 6 } else if i == 207 { 6 } else { 2 }
}

pub open spec fn spec_cycles_row13(i: int) -> u8 {
    if i == 208 { 2 } else if i == 209 { 5 } else if i == 210 { 2 } else if i == 211 { 8 } else if i == 212 { 4 } else if i == 213 { 4 } else if i == 214 { 6 } else if i == 215 { 6 } else if i == 216 { 2 } else if i == 217 { 4 } else if i == 218 { 2 } else if i == 219 { 7 } else if i == 220 { 4 } else if i == 221 { 4 } else if i == 222 { 7 } else if i == 223 { 7 } else { 2 }
}

pub open spec fn spec_cycles_row14(i: int) -> u8 {
    if i == 224 { 2 } else if i == 225 { 6 } else if i == 226 { 2 } else if i == 227 { 8 } else if i == 228 { 3 } else if i == 229 { 3 } else if i == 230 { 5 } else if i == 231 { 5 } else if i == 232 { 2 } else if i == 233 { 2 } else if i == 234 { 2 } else if i == 235 { 2 } else if i == 236 { 4 } else if i == 237 { 4 } else if i == 238 { 6 } else if i == 239 { 6 } else { 2 }
}

pub open spec fn spec_cycles_row15(i: int) -> u8 {
    if i == 240 { 2 } else if i == 241 { 5 } else if i == 242 { 2 } else if i == 243 { 8 } else if i == 244 { 4 } else if i == 245 { 4 } else if i == 246 { 6 } else if i == 247 { 6 } else if i == 248 { 2 } else if i == 249 { 4 } else if i == 250 { 2 } else if i == 251 { 7 } else if i == 252 { 4 } else if i == 253 { 4 } else if i == 254 { 7 } else if i == 255 { 7 } else { 2 }
}

/// Operation of the opcode table entry at index `i`.
pub open spec fn spec_op(i: int) -> Op {
    if i < 16 { spec_op_row0(i) } else if i < 32 { spec_op_row1(i) } else if i < 48 { spec_op_row2(i) } else if i < 64 { spec_op_row3(i) } else if i < 80 { spec_op_row4(i) } else if i < 96 { spec_op_row5(i) } else if i < 112 { spec_op_row6(i) } else if i < 128 { spec_op_row7(i) } else if i < 144 { spec_op_row8(i) } else if i < 160 { spec_op_row9(i) } else if i < 176 { spec_op_row10(i) } else if i < 192 { spec_op_row11(i) } else if i < 208 { spec_op_row12(i) } else if i < 224 { spec_op_row13(i) } else if i < 240 { spec_op_row14(i) } else if i < 256 { spec_op_row15(i) } else { Op::Xxx }
}

/// Addressing mode of the opcode table entry at index `i`.
pub open spec fn spec_addr_mode(i: int) -> AddrMode {
    if i < 16 { spec_addr_mode_row0(i) } else if i < 32 { spec_addr_mode_row1(i) } else if i < 48 { spec_addr_mode_row2(i) } else if i < 64 { spec_addr_mode_row3(i) } else if i < 80 { spec_addr_mode_row4(i) } else if i < 96 { spec_addr_mode_row5(i) } else if i < 112 { spec_addr_mode_row6(i) } else if i < 128 { spec_addr_mode_row7(i) } else if i < 144 { spec_addr_mode_row8(i) } else if i < 160 { spec_addr_mode_row9(i) } else if i < 176 { spec_addr_mode_row10(i) } else if i < 192 { spec_addr_mode_row11(i) } else if i < 208 { spec_addr_mode_row12(i) } else if i < 224 { spec_addr_mode_row13(i) } else if i < 240 { spec_addr_mode_row14(i) } else if i < 256 { spec_addr_mode_row15(i) } else { AddrMode::Imp }
}

/// Base cycle count of the opcode table entry at index `i`.
pub open spec fn spec_cycles(i: int) -> u8 {
    if i < 16 { spec_cycles_row0(i) } else if i < 32 { spec_cycles_row1(i) } else if i < 48 { spec_cycles_row2(i) } else if i < 64 { spec_cycles_row3(i) } else if i < 80 { spec_cycles_row4(i) } else if i < 96 { spec_cycles_row5(i) } else if i < 112 { spec_cycles_row6(i) } else if i < 128 { spec_cycles_row7(i) } else if i < 144 { spec_cycles_row8(i) } else if i < 160 { spec_cycles_row9(i) } else if i < 176 { spec_cycles_row10(i) } else if i < 192 { spec_cycles_row11(i) } else if i < 208 { spec_cycles_row12(i) } else if i < 224 { spec_cycles_row13(i) } else if i < 240 { spec_cycles_row14(i) } else if i < 256 { spec_cycles_row15(i) } else { 2 }
}

fn instr_lookup_row0(opcode: u8) -> (r: Instr)
    requires
        0 <= opcode < 16,
    ensures
        r.op == spec_op(opcode as int),
        r.addr_mode == spec_addr_mode(opcode as int),
        r.cycles == spec_cycles(opcode as int),
        2 <= r.cycles <= 8,
{
    match opcode {
        0 => Instr::new("BRK", Op::Brk, AddrMode::Imm, 7),
        1 => Instr::new("ORA", Op::Ora, AddrMode::Izx, 6),
        2 => Instr::new("???", Op::Xxx, AddrMode::Imp, 2),
        3 => Instr::new("???", Op::Xxx, AddrMode::Imp, 8),
        4 => Instr::new("???", Op::Nop, AddrMode::Imp, 3),
        5 => Instr::new("ORA", Op::Ora, AddrMode::Zp0, 3),
        6 => Instr::new("ASL", Op::Asl, AddrMode::Zp0, 5),
        7 => Instr::new("???", Op::Xxx, AddrMode::Imp, 5),
        8 => Instr::new("PHP", Op::Php, AddrMode::Imp, 3),
        9 => Instr::new("ORA", Op::Ora, AddrMode::Imm, 2),
        10 => Instr::new("ASL", Op::Asl, AddrMode::Imp, 2),
        11 => Instr::new("???", Op::Xxx, AddrMode::Imp, 2),
        12 => Instr::new("???", Op::Nop, AddrMode::Imp, 4),
        13 => Instr::new("ORA", Op::Ora, AddrMode::Abs, 4),
        14 => Instr::new("ASL", Op::Asl, AddrMode::Abs, 6),
        _ => Instr::new("???", Op::Xxx, AddrMode::Imp, 6),
    }
}

fn instr_lookup_row1(opcode: u8) -> (r: Instr)
    requires
        16 <= opcode < 32,
    ensures
        r.op == spec_op(opcode as int),
        r.addr_mode == spec_addr_mode(opcode as int),
        r.cycles == spec_cycles(opcode as int),
        2 <= r.cycles <= 8,
{
    match opcode {
        16 => Instr::new("BPL", Op::Bpl, AddrMode::Rel, 2),
        17 => Instr::new("ORA", Op::Ora, AddrMode::Izy, 5),
        18 => Instr::new("???", Op::Xxx, AddrMode::Imp, 2),
        19 => Instr::new("???", Op::Xxx, AddrMode::Imp, 8),
        20 => Instr::new("???", Op::Nop, AddrMode::Imp, 4),
        21 => Instr::new("ORA", Op::Ora, AddrMode::Zpx, 4),
        22 => Instr::new("ASL", Op::Asl, AddrMode::Zpx, 6),
        23 => Instr::new("???", Op::Xxx, AddrMode::Imp, 6),
        24 => Instr::new("CLC", Op::Clc, AddrMode::Imp, 2),
        25 => Instr::new("ORA", Op::Ora, AddrMode::Aby, 4),
        26 => Instr::new("???", Op::Nop, AddrMode::Imp, 2),
        27 => Instr::new("???", Op::Xxx, AddrMode::Imp, 7),
        28 => Instr::new("???", Op::Nop, AddrMode::Imp, 4),
        29 => Instr::new("ORA", Op::Ora, AddrMode::Abx, 4),
        30 => Instr::new("ASL", Op::Asl, AddrMode::Abx, 7),
        _ => Instr::new("???", Op::Xxx, AddrMode::Imp, 7),
    }
}

fn instr_lookup_row2(opcode: u8) -> (r: Instr)
    requires
        32 <= opcode < 48,
    ensures
        r.op == spec_op(opcode as int),
        r.addr_mode == spec_addr_mode(opcode as int),
        r.cycles == spec_cycles(opcode as int),
        2 <= r.cycles <= 8,
{
    match opcode {
        32 => Instr::new("JSR", Op::Jsr, AddrMode::Abs, 6),
        33 => Instr::new("AND", Op::And, AddrMode::Izx, 6),
        34 => Instr::new("???", Op::Xxx, AddrMode::Imp, 2),
        35 => Instr::new("???", Op::Xxx, AddrMode::Imp, 8),
        36 => Instr::new("BIT", Op::Bit, AddrMode::Zp0, 3),
        37 => Instr::new("AND", Op::And, AddrMode::Zp0, 3),
        38 => Instr::new("ROL", Op::Rol, AddrMode::Zp0, 5),
        39 => Instr::new("???", Op::Xxx, AddrMode::Imp, 5),
        40 => Instr::new("PLP", Op::Plp, AddrMode::Imp, 4),
        41 => Instr::new("AND", Op::And, AddrMode::Imm, 2),
        42 => Instr::new("ROL", Op::Rol, AddrMode::Imp, 2),
        43 => Instr::new("???", Op::Xxx, AddrMode::Imp, 2),
        44 => Instr::new("BIT", Op::Bit, AddrMode::Abs, 4),
        45 => Instr::new("AND", Op::And, AddrMode::Abs, 4),
        46 => Instr::new("ROL", Op::Rol, AddrMode::Abs, 6),
        _ => Instr::new("???", Op::Xxx, AddrMode::Imp, 6),
    }
}

fn instr_lookup_row3(opcode: u8) -> (r: Instr)
    requires
        48 <= opcode < 64,
    ensures
        r.op == spec_op(opcode as int),
        r.addr_mode == spec_addr_mode(opcode as int),
        r.cycles == spec_cycles(opcode as int),
        2 <= r.cycles <= 8,
{
    match opcode {
        48 => Instr::new("BMI", Op::Bmi, AddrMode::Rel, 2),
        49 => Instr::new("AND", Op::And, AddrMode::Izy, 5),
        50 => Instr::new("???", Op::Xxx, AddrMode::Imp, 2),
        51 => Instr::new("???", Op::Xxx, AddrMode::Imp, 8),
        52 => Instr::new("???", Op::Nop, AddrMode::Imp, 4),
        53 => Instr::new("AND", Op::And, AddrMode::Zpx, 4),
        54 => Instr::new("ROL", Op::Rol, AddrMode::Zpx, 6),
        55 => Instr::new("???", Op::Xxx, AddrMode::Imp, 6),
        56 => Instr::new("SEC", Op::Sec, AddrMode::Imp, 2),
        57 => Instr::new("AND", Op::And, AddrMode::Aby, 4),
        58 => Instr::new("???", Op::Nop, AddrMode::Imp, 2),
        59 => Instr::new("???", Op::Xxx, AddrMode::Imp, 7),
        60 => Instr::new("???", Op::Nop, AddrMode::Imp, 4),
        61 => Instr::new("AND", Op::And, AddrMode::Abx, 4),
        62 => Instr::new("ROL", Op::Rol, AddrMode::Abx, 7),
        _ => Instr::new("???", Op::Xxx, AddrMode::Imp, 7),
    }
}

fn instr_lookup_row4(opcode: u8) -> (r: Instr)
    requires
        64 <= opcode < 80,
    ensures
        r.op == spec_op(opcode as int),
        r.addr_mode == spec_addr_mode(opcode as int),
        r.cycles == spec_cycles(opcode as int),
        2 <= r.cycles <= 8,
{
    match opcode {
        64 => Instr::new("RTI", Op::Rti, AddrMode::Imp, 6),
        65 => Instr::new("EOR", Op::Eor, AddrMode::Izx, 6),
        66 => Instr::new("???", Op::Xxx, AddrMode::Imp, 2),
        67 => Instr::new("???", Op::Xxx, AddrMode::Imp, 8),
        68 => Instr::new("???", Op::Nop, AddrMode::Imp, 3),
        69 => Instr::new("EOR", Op::Eor, AddrMode::Zp0, 3),
        70 => Instr::new("LSR", Op::Lsr, AddrMode::Zp0, 5),
        71 => Instr::new("???", Op::Xxx, AddrMode::Imp, 5),
        72 => Instr::new("PHA", Op::Pha, AddrMode::Imp, 3),
        73 => Instr::new("EOR", Op::Eor, AddrMode::Imm, 2),
        74 => Instr::new("LSR", Op::Lsr, AddrMode::Imp, 2),
        75 => Instr::new("???", Op::Xxx, AddrMode::Imp, 2),
        76 => Instr::new("JMP", Op::Jmp, AddrMode::Abs, 3),
        77 => Instr::new("EOR", Op::Eor, AddrMode::Abs, 4),
        78 => Instr::new("LSR", Op::Lsr, AddrMode::Abs, 6),
        _ => Instr::new("???", Op::Xxx, AddrMode::Imp, 6),
    }
}

fn instr_lookup_row5(opcode: u8) -> (r: Instr)
    requires
        80 <= opcode < 96,
    ensures
        r.op == spec_op(opcode as int),
        r.addr_mode == spec_addr_mode(opcode as int),
        r.cycles == spec_cycles(opcode as int),
        2 <= r.cycles <= 8,
{
    match opcode {
        80 => Instr::new("BVC", Op::Bvc, AddrMode::Rel, 2),
        81 => Instr::new("EOR", Op::Eor, AddrMode::Izy, 5),
        82 => Instr::new("???", Op::Xxx, AddrMode::Imp, 2),
        83 => Instr::new("???", Op::Xxx, AddrMode::Imp, 8),
        84 => Instr::new("???", Op::Nop, AddrMode::Imp, 4),
        85 => Instr::new("EOR", Op::Eor, AddrMode::Zpx, 4),
        86 => Instr::new("LSR", Op::Lsr, AddrMode::Zpx, 6),
        87 => Instr::new("???", Op::Xxx, AddrMode::Imp, 6),
        88 => Instr::new("CLI", Op::Cli, AddrMode::Imp, 2),
        89 => Instr::new("EOR", Op::Eor, AddrMode::Aby, 4),
        90 => Instr::new("???", Op::Nop, AddrMode::Imp, 2),
        91 => Instr::new("???", Op::Xxx, AddrMode::Imp, 7),
        92 => Instr::new("???", Op::Nop, AddrMode::Imp, 4),
        93 => Instr::new("EOR", Op::Eor, AddrMode::Abx, 4),
        94 => Instr::new("LSR", Op::Lsr, AddrMode::Abx, 7),
        _ => Instr::new("???", Op::Xxx, AddrMode::Imp, 7),
    }
}

fn instr_lookup_row6(opcode: u8) -> (r: Instr)
    requires
        96 <= opcode < 112,
    ensures
        r.op == spec_op(opcode as int),
        r.addr_mode == spec_addr_mode(opcode as int),
        r.cycles == spec_cycles(opcode as int),
        2 <= r.cycles <= 8,
{
    match opcode {
        96 => Instr::new("RTS", Op::Rts, AddrMode::Imp, 6),
        97 => Instr::new("ADC", Op::Adc, AddrMode::Izx, 6),
        98 => Instr::new("???", Op::Xxx, AddrMode::Imp, 2),
        99 => Instr::new("???", Op::Xxx, AddrMode::Imp, 8),
        100 => Instr::new("???", Op::Nop, AddrMode::Imp, 3),
        101 => Instr::new("ADC", Op::Adc, AddrMode::Zp0, 3),
        102 => Instr::new("ROR", Op::Ror, AddrMode::Zp0, 5),
        103 => Instr::new("???", Op::Xxx, AddrMode::Imp, 5),
        104 => Instr::new("PLA", Op::Pla, AddrMode::Imp, 4),
        105 => Instr::new("ADC", Op::Adc, AddrMode::Imm, 2),
        106 => Instr::new("ROR", Op::Ror, AddrMode::Imp, 2),
        107 => Instr::new("???", Op::Xxx, AddrMode::Imp, 2),
        108 => Instr::new("JMP", Op::Jmp, AddrMode::Ind, 5),
        109 => Instr::new("ADC", Op::Adc, AddrMode::Abs, 4),
        110 => Instr::new("ROR", Op::Ror, AddrMode::Abs, 6),
        _ => Instr::new("???", Op::Xxx, AddrMode::Imp, 6),
    }
}

fn instr_lookup_row7(opcode: u8) -> (r: Instr)
    requires
        112 <= opcode < 128,
    ensures
        r.op == spec_op(opcode as int),
        r.addr_mode == spec_addr_mode(opcode as int),
        r.cycles == spec_cycles(opcode as int),
        2 <= r.cycles <= 8,
{
    match opcode {
        112 => Instr::new("BVS", Op::Bvs, AddrMode::Rel, 2),
        113 => Instr::new("ADC", Op::Adc, AddrMode::Izy, 5),
        114 => Instr::new("???", Op::Xxx, AddrMode::Imp, 2),
        115 => Instr::new("???", Op::Xxx, AddrMode::Imp, 8),
        116 => Instr::new("???", Op::Nop, AddrMode::Imp, 4),
        117 => Instr::new("ADC", Op::Adc, AddrMode::Zpx, 4),
        118 => Instr::new("ROR", Op::Ror, AddrMode::Zpx, 6),
        119 => Instr::new("???", Op::Xxx, AddrMode::Imp, 6),
        120 => Instr::new("SEI", Op::Sei, AddrMode::Imp, 2),
        121 => Instr::new("ADC", Op::Adc, AddrMode::Aby, 4),
        122 => Instr::new("???", Op::Nop, AddrMode::Imp, 2),
        123 => Instr::new("???", Op::Xxx, AddrMode::Imp, 7),
        124 => Instr::new("???", Op::Nop, AddrMode::Imp, 4),
        125 => Instr::new("ADC", Op::Adc, AddrMode::Abx, 4),
        126 => Instr::new("ROR", Op::Ror, AddrMode::Abx, 7),
        _ => Instr::new("???", Op::Xxx, AddrMode::Imp, 7),
    }
}

fn instr_lookup_row8(opcode: u8) -> (r: Instr)
    requires
        128 <= opcode < 144,
    ensures
        r.op == spec_op(opcode as int),
        r.addr_mode == spec_addr_mode(opcode as int),
        r.cycles == spec_cycles(opcode as int),
        2 <= r.cycles <= 8,
{
    match opcode {
        128 => Instr::new("???", Op::Nop, AddrMode::Imp, 2),
        129 => Instr::new("STA", Op::Sta, AddrMode::Izx, 6),
        130 => Instr::new("???", Op::Nop, AddrMode::Imp, 2),
        131 => Instr::new("???", Op::Xxx, AddrMode::Imp, 6),
        132 => Instr::new("STY", Op::Sty, AddrMode::Zp0, 3),
        133 => Instr::new("STA", Op::Sta, AddrMode::Zp0, 3),
        134 => Instr::new("STX", Op::Stx, AddrMode::Zp0, 3),
        135 => Instr::new("???", Op::Xxx, AddrMode::Imp, 3),
        136 => Instr::new("DEY", Op::Dey, AddrMode::Imp, 2),
        137 => Instr::new("???", Op::Nop, AddrMode::Imp, 2),
        138 => Instr::new("TXA", Op::Txa, AddrMode::Imp, 2),
        139 => Instr::new("???", Op::Xxx, AddrMode::Imp, 2),
        140 => Instr::new("STY", Op::Sty, AddrMode::Abs, 4),
        141 => Instr::new("STA", Op::Sta, AddrMode::Abs, 4),
        142 => Instr::new("STX", Op::Stx, AddrMode::Abs, 4),
        _ => Instr::new("???", Op::Xxx, AddrMode::Imp, 4),
    }
}

fn instr_lookup_row9(opcode: u8) -> (r: Instr)
    requires
        144 <= opcode < 160,
    ensures
        r.op == spec_op(opcode as int),
        r.addr_mode == spec_addr_mode(opcode as int),
        r.cycles == spec_cycles(opcode as int),
        2 <= r.cycles <= 8,
{
    match opcode {
        144 => Instr::new("BCC", Op::Bcc, AddrMode::Rel, 2),
        145 => Instr::new("STA", Op::Sta, AddrMode::Izy, 6),
        146 => Instr::new("???", Op::Xxx, AddrMode::Imp, 2),
        147 => Instr::new("???", Op::Xxx, AddrMode::Imp, 6),
        148 => Instr::new("STY", Op::Sty, AddrMode::Zpx, 4),
        149 => Instr::new("STA", Op::Sta, AddrMode::Zpx, 4),
        150 => Instr::new("STX", Op::Stx, AddrMode::Zpy, 4),
        151 => Instr::new("???", Op::Xxx, AddrMode::Imp, 4),
        152 => Instr::new("TYA", Op::Tya, AddrMode::Imp, 2),
        153 => Instr::new("STA", Op::Sta, AddrMode::Aby, 5),
        154 => Instr::new("TXS", Op::Txs, AddrMode::Imp, 2),
        155 => Instr::new("???", Op::Xxx, AddrMode::Imp, 5),
        156 => Instr::new("???", Op::Nop, AddrMode::Imp, 5),
        157 => Instr::new("STA", Op::Sta, AddrMode::Abx, 5),
        158 => Instr::new("???", Op::Xxx, AddrMode::Imp, 5),
        _ => Instr::new("???", Op::Xxx, AddrMode::Imp, 5),
    }
}

fn instr_lookup_row10(opcode: u8) -> (r: Instr)
    requires
        160 <= opcode < 176,
    ensures
        r.op == spec_op(opcode as int),
        r.addr_mode == spec_addr_mode(opcode as int),
        r.cycles == spec_cycles(opcode as int),
        2 <= r.cycles <= 8,
{
    match opcode {
        160 => Instr::new("LDY", Op::Ldy, AddrMode::Imm, 2),
        161 => Instr::new("LDA", Op::Lda, AddrMode::Izx, 6),
        162 => Instr::new("LDX", Op::Ldx, AddrMode::Imm, 2),
        163 => Instr::new("???", Op::Xxx, AddrMode::Imp, 6),
        164 => Instr::new("LDY", Op::Ldy, AddrMode::Zp0, 3),
        165 => Instr::new("LDA", Op::Lda, AddrMode::Zp0, 3),
        166 => Instr::new("LDX", Op::Ldx, AddrMode::Zp0, 3),
        167 => Instr::new("???", Op::Xxx, AddrMode::Imp, 3),
        168 => Instr::new("TAY", Op::Tay, AddrMode::Imp, 2),
        169 => Instr::new("LDA", Op::Lda, AddrMode::Imm, 2),
        170 => Instr::new("TAX", Op::Tax, AddrMode::Imp, 2),
        171 => Instr::new("???", Op::Xxx, AddrMode::Imp, 2),
        172 => Instr::new("LDY", Op::Ldy, AddrMode::Abs, 4),
        173 => Instr::new("LDA", Op::Lda, AddrMode::Abs, 4),
        174 => Instr::new("LDX", Op::Ldx, AddrMode::Abs, 4),
        _ => Instr::new("???", Op::Xxx, AddrMode::Imp, 4),
    }
}

fn instr_lookup_row11(opcode: u8) -> (r: Instr)
    requires
        176 <= opcode < 192,
    ensures
        r.op == spec_op(opcode as int),
        r.addr_mode == spec_addr_mode(opcode as int),
        r.cycles == spec_cycles(opcode as int),
        2 <= r.cycles <= 8,
{
    match opcode {
        176 => Instr::new("BCS", Op::Bcs, AddrMode::Rel, 2),
        177 => Instr::new("LDA", Op::Lda, AddrMode::Izy, 5),
        178 => Instr::new("???", Op::Xxx, AddrMode::Imp, 2),
        179 => Instr::new("???", Op::Xxx, AddrMode::Imp, 5),
        180 => Instr::new("LDY", Op::Ldy, AddrMode::Zpx, 4),
        181 => Instr::new("LDA", Op::Lda, AddrMode::Zpx, 4),
        182 => Instr::new("LDX", Op::Ldx, AddrMode::Zpy, 4),
        183 => Instr::new("???", Op::Xxx, AddrMode::Imp, 4),
        184 => Instr::new("CLV", Op::Clv, AddrMode::Imp, 2),
        185 => Instr::new("LDA", Op::Lda, AddrMode::Aby, 4),
        186 => Instr::new("TSX", Op::Tsx, AddrMode::Imp, 2),
        187 => Instr::new("???", Op::Xxx, AddrMode::Imp, 4),
        188 => Instr::new("LDY", Op::Ldy, AddrMode::Abx, 4),
        189 => Instr::new("LDA", Op::Lda, AddrMode::Abx, 4),
        190 => Instr::new("LDX", Op::Ldx, AddrMode::Aby, 4),
        _ => Instr::new("???", Op::Xxx, AddrMode::Imp, 4),
    }
}

fn instr_lookup_row12(opcode: u8) -> (r: Instr)
    requires
        192 <= opcode < 208,
    ensures
        r.op == spec_op(opcode as int),
        r.addr_mode == spec_addr_mode(opcode as int),
        r.cycles == spec_cycles(opcode as int),
        2 <= r.cycles <= 8,
{
    match opcode {
        192 => Instr::new("CPY", Op::Cpy, AddrMode::Imm, 2),
        193 => Instr::new("CMP", Op::Cmp, AddrMode::Izx, 6),
        194 => Instr::new("???", Op::Nop, AddrMode::Imp, 2),
        195 => Instr::new("???", Op::Xxx, AddrMode::Imp, 8),
        196 => Instr::new("CPY", Op::Cpy, AddrMode::Zp0, 3),
        197 => Instr::new("CMP", Op::Cmp, AddrMode::Zp0, 3),
        198 => Instr::new("DEC", Op::Dec, AddrMode::Zp0, 5),
        199 => Instr::new("???", Op::Xxx, AddrMode::Imp, 5),
        200 => Instr::new("INY", Op::Iny, AddrMode::Imp, 2),
        201 => Instr::new("CMP", Op::Cmp, AddrMode::Imm, 2),
        202 => Instr::new("DEX", Op::Dex, AddrMode::Imp, 2),
        203 => Instr::new("???", Op::Xxx, AddrMode::Imp, 2),
        204 => Instr::new("CPY", Op::Cpy, AddrMode::Abs, 4),
        205 => Instr::new("CMP", Op::Cmp, AddrMode::Abs, 4),
        206 => Instr::new("DEC", Op::Dec, AddrMode::Abs, 6),
        _ => Instr::new("???", Op::Xxx, AddrMode::Imp, 6),
    }
}

fn instr_lookup_row13(opcode: u8) -> (r: Instr)
    requires
        208 <= opcode < 224,
    ensures
        r.op == spec_op(opcode as int),
        r.addr_mode == spec_addr_mode(opcode as int),
        r.cycles == spec_cycles(opcode as int),
        2 <= r.cycles <= 8,
{
    match opcode {
        208 => Instr::new("BNE", Op::Bne, AddrMode::Rel, 2),
        209 => Instr::new("CMP", Op::Cmp, AddrMode::Izy, 5),
        210 => Instr::new("???", Op::Xxx, AddrMode::Imp, 2),
        211 => Instr::new("???", Op::Xxx, AddrMode::Imp, 8),
        212 => Instr::new("???", Op::Nop, AddrMode::Imp, 4),
        213 => Instr::new("CMP", Op::Cmp, AddrMode::Zpx, 4),
        214 => Instr::new("DEC", Op::Dec, AddrMode::Zpx, 6),
        215 => Instr::new("???", Op::Xxx, AddrMode::Imp, 6),
        216 => Instr::new("CLD", Op::Cld, AddrMode::Imp, 2),
        217 => Instr::new("CMP", Op::Cmp, AddrMode::Aby, 4),
        218 => Instr::new("NOP", Op::Nop, AddrMode::Imp, 2),
        219 => Instr::new("???", Op::Xxx, AddrMode::Imp, 7),
        220 => Instr::new("???", Op::Nop, AddrMode::Imp, 4),
        221 => Instr::new("CMP", Op::Cmp, AddrMode::Abx, 4),
        222 => Instr::new("DEC", Op::Dec, AddrMode::Abx, 7),
        _ => Instr::new("???", Op::Xxx, AddrMode::Imp, 7),
    }
}

fn instr_lookup_row14(opcode: u8) -> (r: Instr)
    requires
        224 <= opcode < 240,
    ensures
        r.op == spec_op(opcode as int),
        r.addr_mode == spec_addr_mode(opcode as int),
        r.cycles == spec_cycles(opcode as int),
        2 <= r.cycles <= 8,
{
    match opcode {
        224 => Instr::new("CPX", Op::Cpx, AddrMode::Imm, 2),
        225 => Instr::new("SBC", Op::Sbc, AddrMode::Izx, 6),
        226 => Instr::new("???", Op::Nop, AddrMode::Imp, 2),
        227 => Instr::new("???", Op::Xxx, AddrMode::Imp, 8),
        228 => Instr::new("CPX", Op::Cpx, AddrMode::Zp0, 3),
        229 => Instr::new("SBC", Op::Sbc, AddrMode::Zp0, 3),
        230 => Instr::new("INC", Op::Inc, AddrMode::Zp0, 5),
        231 => Instr::new("???", Op::Xxx, AddrMode::Imp, 5),
        232 => Instr::new("INX", Op::Inx, AddrMode::Imp, 2),
        233 => Instr::new("SBC", Op::Sbc, AddrMode::Imm, 2),
        234 => Instr::new("NOP", Op::Nop, AddrMode::Imp, 2),
        235 => Instr::new("???", Op::Sbc, AddrMode::Imp, 2),
        236 => Instr::new("CPX", Op::Cpx, AddrMode::Abs, 4),
        237 => Instr::new("SBC", Op::Sbc, AddrMode::Abs, 4),
        238 => Instr::new("INC", Op::Inc, AddrMode::Abs, 6),
        _ => Instr::new("???", Op::Xxx, AddrMode::Imp, 6),
    }
}

fn instr_lookup_row15(opcode: u8) -> (r: Instr)
    requires
        240 <= opcode < 256,
    ensures
        r.op == spec_op(opcode as int),
        r.addr_mode == spec_addr_mode(opcode as int),
        r.cycles == spec_cycles(opcode as int),
        2 <= r.cycles <= 8,
{
    match opcode {
        240 => Instr::new("BEQ", Op::Beq, AddrMode::Rel, 2),
        241 => Instr::new("SBC", Op::Sbc, AddrMode::Izy, 5),
        242 => Instr::new("???", Op::Xxx, AddrMode::Imp, 2),
        243 => Instr::new("???", Op::Xxx, AddrMode::Imp, 8),
        244 => Instr::new("???", Op::Nop, AddrMode::Imp, 4),
        245 => Instr::new("SBC", Op::Sbc, AddrMode::Zpx, 4),
        246 => Instr::new("INC", Op::Inc, AddrMode::Zpx, 6),
        247 => Instr::new("???", Op::Xxx, AddrMode::Imp, 6),
        248 => Instr::new("SED", Op::Sed, AddrMode::Imp, 2),
        249 => Instr::new("SBC", Op::Sbc, AddrMode::Aby, 4),
        250 => Instr::new("NOP", Op::Nop, AddrMode::Imp, 2),
        251 => Instr::new("???", Op::Xxx, AddrMode::Imp, 7),
        252 => Instr::new("???", Op::Nop, AddrMode::Imp, 4),
        253 => Instr::new("SBC", Op::Sbc, AddrMode::Abx, 4),
        254 => Instr::new("INC", Op::Inc, AddrMode::Abx, 7),
        _ => Instr::new("???", Op::Xxx, AddrMode::Imp, 7),
    }
}

/// Whole instruction length in bytes for an addressing mode: the
/// opcode plus its operand bytes.
pub open spec fn instr_len(m: AddrMode) -> int {
    match m {
        AddrMode::Imp => 1,
        AddrMode::Imm => 2,
        AddrMode::Zp0 => 2,
        AddrMode::Zpx => 2,
        AddrMode::Zpy => 2,
        AddrMode::Rel => 2,
        AddrMode::Abs => 3,
        AddrMode::Abx => 3,
        AddrMode::Aby => 3,
        AddrMode::Ind => 3,
        AddrMode::Izx => 2,
        AddrMode::Izy => 2,
    }
}

/// The fixed 256-entry opcode table, split into sixteen rows.
pub fn instr_lookup(opcode: u8) -> (r: Instr)
    ensures
        r.op == spec_op(opcode as int),
        r.addr_mode == spec_addr_mode(opcode as int),
        r.cycles == spec_cycles(opcode as int),
        2 <= r.cycles <= 8,
{
    match opcode / 16 {
        0 => instr_lookup_row0(opcode),
        1 => instr_lookup_row1(opcode),
        2 => instr_lookup_row2(opcode),
        3 => instr_lookup_row3(opcode),
        4 => instr_lookup_row4(opcode),
        5 => instr_lookup_row5(opcode),
        6 => instr_lookup_row6(opcode),
        7 => instr_lookup_row7(opcode),
        8 => instr_lookup_row8(opcode),
        9 => instr_lookup_row9(opcode),
        10 => instr_lookup_row10(opcode),
        11 => instr_lookup_row11(opcode),
        12 => instr_lookup_row12(opcode),
        13 => instr_lookup_row13(opcode),
        14 => instr_lookup_row14(opcode),
        _ => instr_lookup_row15(opcode),
    }
}

} // verus!
