use z80dasm::decode::{DasmResult, Disassemble};

/// Decodes the first instruction of `bytes`.
fn first(bytes: &[u8]) -> DasmResult {
    let mut dasm = Disassemble::load(bytes.to_vec());
    assert!(dasm.do_disassemble_one().is_ok());
    let record = dasm.decoded_instructions()[0].clone();
    assert_eq!(record.opcodes_data.len(), dasm.read_address());
    record
}

/// For each opcode its mnemonic and length, the operand bytes being 34 12.
fn primary_expected() -> Vec<(&'static str, usize)> {
    vec![
        ("NOP", 1), // 00
        ("LD BC,1234H", 3), // 01
        ("LD (BC),A", 1), // 02
        ("INC BC", 1), // 03
        ("INC B", 1), // 04
        ("DEC B", 1), // 05
        ("LD B,34H", 2), // 06
        ("RLCA", 1), // 07
        ("EX AF,AF'", 1), // 08
        ("ADD HL,BC", 1), // 09
        ("LD A,(BC)", 1), // 0A
        ("DEC BC", 1), // 0B
        ("INC C", 1), // 0C
        ("DEC C", 1), // 0D
        ("LD C,34H", 2), // 0E
        ("RRCA", 1), // 0F
        ("DJNZ 34H", 2), // 10
        ("LD DE,1234H", 3), // 11
        ("LD (DE),A", 1), // 12
        ("INC DE", 1), // 13
        ("INC D", 1), // 14
        ("DEC D", 1), // 15
        ("LD D,34H", 2), // 16
        ("RLA", 1), // 17
        ("JR 34H", 2), // 18
        ("ADD HL,DE", 1), // 19
        ("LD A,(DE)", 1), // 1A
        ("DEC DE", 1), // 1B
        ("INC E", 1), // 1C
        ("DEC E", 1), // 1D
        ("LD E,34H", 2), // 1E
        ("RRA", 1), // 1F
        ("JR NZ,34H", 2), // 20
        ("LD HL,1234H", 3), // 21
        ("LD (1234H),HL", 3), // 22
        ("INC HL", 1), // 23
        ("INC H", 1), // 24
        ("DEC H", 1), // 25
        ("LD H,34H", 2), // 26
        ("DAA", 1), // 27
        ("JR Z,34H", 2), // 28
        ("ADD HL,HL", 1), // 29
        ("LD HL,(1234H)", 3), // 2A
        ("DEC HL", 1), // 2B
        ("INC L", 1), // 2C
        ("DEC L", 1), // 2D
        ("LD L,34H", 2), // 2E
        ("CPL", 1), // 2F
        ("JR NC,34H", 2), // 30
        ("LD SP,1234H", 3), // 31
        ("LD (1234H),A", 3), // 32
        ("INC SP", 1), // 33
        ("INC (HL)", 1), // 34
        ("DEC (HL)", 1), // 35
        ("LD (HL),34H", 2), // 36
        ("SCF", 1), // 37
        ("JR C,34H", 2), // 38
        ("LD HL,SP", 1), // 39
        ("LD A,(1234H)", 3), // 3A
        ("DEC SP", 1), // 3B
        ("INC A", 1), // 3C
        ("DEC A", 1), // 3D
        ("LD A,34H", 2), // 3E
        ("CCF", 1), // 3F
        ("LD B,B", 1), // 40
        ("LD B,C", 1), // 41
        ("LD B,D", 1), // 42
        ("LD B,E", 1), // 43
        ("LD B,H", 1), // 44
        ("LD B,L", 1), // 45
        ("LD B,(HL)", 1), // 46
        ("LD B,A", 1), // 47
        ("LD C,B", 1), // 48
        ("LD C,C", 1), // 49
        ("LD C,D", 1), // 4A
        ("LD C,E", 1), // 4B
        ("LD C,H", 1), // 4C
        ("LD C,L", 1), // 4D
        ("LD C,(HL)", 1), // 4E
        ("LD C,A", 1), // 4F
        ("LD D,B", 1), // 50
        ("LD D,C", 1), // 51
        ("LD D,D", 1), // 52
        ("LD D,E", 1), // 53
        ("LD D,H", 1), // 54
        ("LD D,L", 1), // 55
        ("LD D,(HL)", 1), // 56
        ("LD D,A", 1), // 57
        ("LD E,B", 1), // 58
        ("LD E,C", 1), // 59
        ("LD E,D", 1), // 5A
        ("LD E,E", 1), // 5B
        ("LD E,H", 1), // 5C
        ("LD E,L", 1), // 5D
        ("LD E,(HL)", 1), // 5E
        ("LD E,A", 1), // 5F
        ("LD H,B", 1), // 60
        ("LD H,C", 1), // 61
        ("LD H,D", 1), // 62
        ("LD H,E", 1), // 63
        ("LD H,H", 1), // 64
        ("LD H,L", 1), // 65
        ("LD H,(HL)", 1), // 66
        ("LD H,A", 1), // 67
        ("LD L,B", 1), // 68
        ("LD L,C", 1), // 69
        ("LD L,D", 1), // 6A
        ("LD L,E", 1), // 6B
        ("LD L,H", 1), // 6C
        ("LD L,L", 1), // 6D
        ("LD L,(HL)", 1), // 6E
        ("LD L,A", 1), // 6F
        ("LD (HL),B", 1), // 70
        ("LD (HL),C", 1), // 71
        ("LD (HL),D", 1), // 72
        ("LD (HL),E", 1), // 73
        ("LD (HL),H", 1), // 74
        ("LD (HL),L", 1), // 75
        ("HALT", 1), // 76
        ("LD (HL),A", 1), // 77
        ("LD A,B", 1), // 78
        ("LD A,C", 1), // 79
        ("LD A,D", 1), // 7A
        ("LD A,E", 1), // 7B
        ("LD A,H", 1), // 7C
        ("LD A,L", 1), // 7D
        ("LD A,(HL)", 1), // 7E
        ("LD A,A", 1), // 7F
        ("ADD A,B", 1), // 80
        ("ADD A,C", 1), // 81
        ("ADD A,D", 1), // 82
        ("ADD A,E", 1), // 83
        ("ADD A,H", 1), // 84
        ("ADD A,L", 1), // 85
        ("ADD A,(HL)", 1), // 86
        ("ADD A,A", 1), // 87
        ("ADC A,B", 1), // 88
        ("ADC A,C", 1), // 89
        ("ADC A,D", 1), // 8A
        ("ADC A,E", 1), // 8B
        ("ADC A,H", 1), // 8C
        ("ADC A,L", 1), // 8D
        ("ADC A,(HL)", 1), // 8E
        ("ADC A,A", 1), // 8F
        ("SUB B", 1), // 90
        ("SUB C", 1), // 91
        ("SUB D", 1), // 92
        ("SUB E", 1), // 93
        ("SUB H", 1), // 94
        ("SUB L", 1), // 95
        ("SUB (HL)", 1), // 96
        ("SUB A", 1), // 97
        ("SBC A,B", 1), // 98
        ("SBC A,C", 1), // 99
        ("SBC A,D", 1), // 9A
        ("SBC A,E", 1), // 9B
        ("SBC A,H", 1), // 9C
        ("SBC A,L", 1), // 9D
        ("SBC A,(HL)", 1), // 9E
        ("SBC A,A", 1), // 9F
        ("AND B", 1), // A0
        ("AND C", 1), // A1
        ("AND D", 1), // A2
        ("AND E", 1), // A3
        ("AND H", 1), // A4
        ("AND L", 1), // A5
        ("AND (HL)", 1), // A6
        ("AND A", 1), // A7
        ("XOR A,B", 1), // A8
        ("XOR A,C", 1), // A9
        ("XOR A,D", 1), // AA
        ("XOR A,E", 1), // AB
        ("XOR A,H", 1), // AC
        ("XOR A,L", 1), // AD
        ("XOR A,(HL)", 1), // AE
        ("XOR A", 1), // AF
        ("OR B", 1), // B0
        ("OR C", 1), // B1
        ("OR D", 1), // B2
        ("OR E", 1), // B3
        ("OR H", 1), // B4
        ("OR L", 1), // B5
        ("OR (HL)", 1), // B6
        ("OR A", 1), // B7
        ("CP B", 1), // B8
        ("CP C", 1), // B9
        ("CP D", 1), // BA
        ("CP E", 1), // BB
        ("CP H", 1), // BC
        ("CP L", 1), // BD
        ("CP (HL)", 1), // BE
        ("CP A", 1), // BF
        ("RET NZ", 1), // C0
        ("POP BC", 1), // C1
        ("JP NZ,1234H", 3), // C2
        ("JP 1234H", 3), // C3
        ("CALL NZ,1234H", 3), // C4
        ("PUSH BC", 1), // C5
        ("ADD A,34H", 2), // C6
        ("RST 00H", 1), // C7
        ("RET Z", 1), // C8
        ("RET", 1), // C9
        ("JP Z,1234H", 3), // CA
        ("", 0), // CB: prefix
        ("CALL Z,1234H", 3), // CC
        ("CALL 1234H", 3), // CD
        ("ADC A,34H", 2), // CE
        ("RST 08H", 1), // CF
        ("RET NC", 1), // D0
        ("POP DE", 1), // D1
        ("JP NC,1234H", 3), // D2
        ("OUT (34H),A", 2), // D3
        ("CALL NC,1234H", 3), // D4
        ("PUSH DE", 1), // D5
        ("SUB 34H", 2), // D6
        ("RST 10H", 1), // D7
        ("RET C", 1), // D8
        ("EXX", 1), // D9
        ("JP C,1234H", 3), // DA
        ("IN A,(34H)", 2), // DB
        ("CALL C,1234H", 3), // DC
        ("", 0), // DD: prefix
        ("SBC A,34H", 2), // DE
        ("RST 18H", 1), // DF
        ("RET PO", 1), // E0
        ("POP HL", 1), // E1
        ("JP PO,1234H", 3), // E2
        ("EX (SP),HL", 1), // E3
        ("CALL PO,1234H", 3), // E4
        ("PUSH HL", 1), // E5
        ("AND 34H", 2), // E6
        ("RST 20H", 1), // E7
        ("RET PE", 1), // E8
        ("JP (HL)", 1), // E9
        ("JP PE,1234H", 3), // EA
        ("EX DE,HL", 1), // EB
        ("CALL PE,1234H", 3), // EC
        ("Unknown", 1), // ED
        ("XOR 34H", 2), // EE
        ("RST 28H", 1), // EF
        ("RET P", 1), // F0
        ("POP AF", 1), // F1
        ("JP P,1234H", 3), // F2
        ("DI", 1), // F3
        ("CALL P,1234H", 3), // F4
        ("PUSH AF", 1), // F5
        ("OR 34H", 2), // F6
        ("RST 30H", 1), // F7
        ("RET M", 1), // F8
        ("LD SP,HL", 1), // F9
        ("JP M,1234H", 3), // FA
        ("EI", 1), // FB
        ("CALL M,1234H", 3), // FC
        ("", 0), // FD: prefix
        ("CP 34H", 2), // FE
        ("RST 38H", 1), // FF
    ]
}

/// For each byte behind DD its mnemonic and length, the operand bytes being
/// 85 12.
fn index_expected() -> Vec<(&'static str, usize)> {
    vec![
        ("Unknown", 2), // 00
        ("Unknown", 2), // 01
        ("Unknown", 2), // 02
        ("Unknown", 2), // 03
        ("Unknown", 2), // 04
        ("Unknown", 2), // 05
        ("Unknown", 2), // 06
        ("Unknown", 2), // 07
        ("Unknown", 2), // 08
        ("ADD IX,BC", 2), // 09
        ("Unknown", 2), // 0A
        ("Unknown", 2), // 0B
        ("Unknown", 2), // 0C
        ("Unknown", 2), // 0D
        ("Unknown", 2), // 0E
        ("Unknown", 2), // 0F
        ("Unknown", 2), // 10
        ("Unknown", 2), // 11
        ("Unknown", 2), // 12
        ("Unknown", 2), // 13
        ("Unknown", 2), // 14
        ("Unknown", 2), // 15
        ("Unknown", 2), // 16
        ("Unknown", 2), // 17
        ("Unknown", 2), // 18
        ("ADD IX,DE", 2), // 19
        ("Unknown", 2), // 1A
        ("Unknown", 2), // 1B
        ("Unknown", 2), // 1C
        ("Unknown", 2), // 1D
        ("Unknown", 2), // 1E
        ("Unknown", 2), // 1F
        ("Unknown", 2), // 20
        ("LD IX,1285H", 4), // 21
        ("LD (1285H),IX", 4), // 22
        ("INC IX", 2), // 23
        ("INC IXH", 2), // 24
        ("DEC IXH", 2), // 25
        ("LD IXH,85H", 3), // 26
        ("Unknown", 2), // 27
        ("Unknown", 2), // 28
        ("ADD IX,IX", 2), // 29
        ("LD IX,(1285H)", 4), // 2A
        ("DEC IX", 2), // 2B
        ("INC IXL", 2), // 2C
        ("DEC IXL", 2), // 2D
        ("LD IXL,85H", 3), // 2E
        ("Unknown", 2), // 2F
        ("Unknown", 2), // 30
        ("Unknown", 2), // 31
        ("Unknown", 2), // 32
        ("Unknown", 2), // 33
        ("INC (IX-123)", 3), // 34
        ("DEC (IX-123)", 3), // 35
        ("LD (IX-123),12H", 4), // 36
        ("Unknown", 2), // 37
        ("Unknown", 2), // 38
        ("ADD IX,SP", 2), // 39
        ("Unknown", 2), // 3A
        ("Unknown", 2), // 3B
        ("Unknown", 2), // 3C
        ("Unknown", 2), // 3D
        ("Unknown", 2), // 3E
        ("Unknown", 2), // 3F
        ("Unknown", 2), // 40
        ("Unknown", 2), // 41
        ("Unknown", 2), // 42
        ("Unknown", 2), // 43
        ("LD B,IXH", 2), // 44
        ("LD B,IXL", 2), // 45
        ("LD B,(IX-123)", 3), // 46
        ("Unknown", 2), // 47
        ("Unknown", 2), // 48
        ("Unknown", 2), // 49
        ("Unknown", 2), // 4A
        ("Unknown", 2), // 4B
        ("LD C,IXH", 2), // 4C
        ("LD C,IXL", 2), // 4D
        ("LD C,(IX-123)", 3), // 4E
        ("Unknown", 2), // 4F
        ("Unknown", 2), // 50
        ("Unknown", 2), // 51
        ("Unknown", 2), // 52
        ("Unknown", 2), // 53
        ("LD D,IXH", 2), // 54
        ("LD D,IXL", 2), // 55
        ("LD D,(IX-123)", 3), // 56
        ("Unknown", 2), // 57
        ("Unknown", 2), // 58
        ("Unknown", 2), // 59
        ("Unknown", 2), // 5A
        ("Unknown", 2), // 5B
        ("LD E,IXH", 2), // 5C
        ("LD E,IXL", 2), // 5D
        ("LD E,(IX-123)", 3), // 5E
        ("Unknown", 2), // 5F
        ("LD IXH,B", 2), // 60
        ("LD IXH,C", 2), // 61
        ("LD IXH,D", 2), // 62
        ("LD IXH,E", 2), // 63
        ("LD IXH,IXH", 2), // 64
        ("LD IXH,IXL", 2), // 65
        ("LD H,(IX-123)", 3), // 66
        ("LD IXH,A", 2), // 67
        ("LD IXL,B", 2), // 68
        ("LD IXL,C", 2), // 69
        ("LD IXL,D", 2), // 6A
        ("LD IXL,E", 2), // 6B
        ("LD IXL,IXH", 2), // 6C
        ("LD IXL,IXL", 2), // 6D
        ("LD L,(IX-123)", 3), // 6E
        ("LD IXL,A", 2), // 6F
        ("LD (IX-123),B", 3), // 70
        ("LD (IX-123),C", 3), // 71
        ("LD (IX-123),D", 3), // 72
        ("LD (IX-123),E", 3), // 73
        ("LD (IX-123),H", 3), // 74
        ("LD (IX-123),L", 3), // 75
        ("Unknown", 2), // 76
        ("LD (IX-123),A", 3), // 77
        ("Unknown", 2), // 78
        ("Unknown", 2), // 79
        ("Unknown", 2), // 7A
        ("Unknown", 2), // 7B
        ("LD A,IXH", 2), // 7C
        ("LD A,IXL", 2), // 7D
        ("LD A,(IX-123)", 3), // 7E
        ("Unknown", 2), // 7F
        ("Unknown", 2), // 80
        ("Unknown", 2), // 81
        ("Unknown", 2), // 82
        ("Unknown", 2), // 83
        ("ADD A,IXH", 2), // 84
        ("ADD A,IXL", 2), // 85
        ("ADD A,(IX-123)", 3), // 86
        ("Unknown", 2), // 87
        ("Unknown", 2), // 88
        ("Unknown", 2), // 89
        ("Unknown", 2), // 8A
        ("Unknown", 2), // 8B
        ("ADC A,IXH", 2), // 8C
        ("ADC A,IXL", 2), // 8D
        ("ADC A,(IX-123)", 3), // 8E
        ("Unknown", 2), // 8F
        ("Unknown", 2), // 90
        ("Unknown", 2), // 91
        ("Unknown", 2), // 92
        ("Unknown", 2), // 93
        ("SUB A,IXH", 2), // 94
        ("SUB A,IXL", 2), // 95
        ("SUB (IX-123)", 3), // 96
        ("Unknown", 2), // 97
        ("Unknown", 2), // 98
        ("Unknown", 2), // 99
        ("Unknown", 2), // 9A
        ("Unknown", 2), // 9B
        ("SBC A,IXH", 2), // 9C
        ("SBC A,IXL", 2), // 9D
        ("SBC A,(IX-123)", 3), // 9E
        ("Unknown", 2), // 9F
        ("Unknown", 2), // A0
        ("Unknown", 2), // A1
        ("Unknown", 2), // A2
        ("Unknown", 2), // A3
        ("AND IXH", 2), // A4
        ("AND IXL", 2), // A5
        ("AND (IX-123)", 3), // A6
        ("Unknown", 2), // A7
        ("Unknown", 2), // A8
        ("Unknown", 2), // A9
        ("Unknown", 2), // AA
        ("Unknown", 2), // AB
        ("XOR IXH", 2), // AC
        ("XOR IXL", 2), // AD
        ("XOR (IX-123)", 3), // AE
        ("Unknown", 2), // AF
        ("Unknown", 2), // B0
        ("Unknown", 2), // B1
        ("Unknown", 2), // B2
        ("Unknown", 2), // B3
        ("OR IXH", 2), // B4
        ("OR IXL", 2), // B5
        ("OR (IX-123)", 3), // B6
        ("Unknown", 2), // B7
        ("Unknown", 2), // B8
        ("Unknown", 2), // B9
        ("Unknown", 2), // BA
        ("Unknown", 2), // BB
        ("CP IXH", 2), // BC
        ("CP IXL", 2), // BD
        ("CP (IX-123)", 3), // BE
        ("Unknown", 2), // BF
        ("Unknown", 2), // C0
        ("Unknown", 2), // C1
        ("Unknown", 2), // C2
        ("Unknown", 2), // C3
        ("Unknown", 2), // C4
        ("Unknown", 2), // C5
        ("Unknown", 2), // C6
        ("Unknown", 2), // C7
        ("Unknown", 2), // C8
        ("Unknown", 2), // C9
        ("Unknown", 2), // CA
        ("Unknown", 2), // CB
        ("Unknown", 2), // CC
        ("Unknown", 2), // CD
        ("Unknown", 2), // CE
        ("Unknown", 2), // CF
        ("Unknown", 2), // D0
        ("Unknown", 2), // D1
        ("Unknown", 2), // D2
        ("Unknown", 2), // D3
        ("Unknown", 2), // D4
        ("Unknown", 2), // D5
        ("Unknown", 2), // D6
        ("Unknown", 2), // D7
        ("Unknown", 2), // D8
        ("Unknown", 2), // D9
        ("Unknown", 2), // DA
        ("Unknown", 2), // DB
        ("Unknown", 2), // DC
        ("Unknown", 2), // DD
        ("Unknown", 2), // DE
        ("Unknown", 2), // DF
        ("Unknown", 2), // E0
        ("POP IX", 2), // E1
        ("Unknown", 2), // E2
        ("EX (SP),IX", 2), // E3
        ("Unknown", 2), // E4
        ("PUSH IX", 2), // E5
        ("Unknown", 2), // E6
        ("Unknown", 2), // E7
        ("Unknown", 2), // E8
        ("JP (IX)", 2), // E9
        ("Unknown", 2), // EA
        ("Unknown", 2), // EB
        ("Unknown", 2), // EC
        ("Unknown", 2), // ED
        ("Unknown", 2), // EE
        ("Unknown", 2), // EF
        ("Unknown", 2), // F0
        ("Unknown", 2), // F1
        ("Unknown", 2), // F2
        ("Unknown", 2), // F3
        ("Unknown", 2), // F4
        ("Unknown", 2), // F5
        ("Unknown", 2), // F6
        ("Unknown", 2), // F7
        ("Unknown", 2), // F8
        ("LD SP,IX", 2), // F9
        ("Unknown", 2), // FA
        ("Unknown", 2), // FB
        ("Unknown", 2), // FC
        ("Unknown", 2), // FD
        ("Unknown", 2), // FE
        ("Unknown", 2), // FF
    ]
}

/// For each byte behind CB its mnemonic.
fn bit_expected() -> Vec<&'static str> {
    vec![
        "RLC B", // 00
        "RLC C", // 01
        "RLC D", // 02
        "RLC E", // 03
        "RLC H", // 04
        "RLC L", // 05
        "RLC (HL)", // 06
        "RLC A", // 07
        "RRC B", // 08
        "RRC C", // 09
        "RRC D", // 0A
        "RRC E", // 0B
        "RRC H", // 0C
        "RRC L", // 0D
        "RRC (HL)", // 0E
        "RRC A", // 0F
        "RL B", // 10
        "RL C", // 11
        "RL D", // 12
        "RL E", // 13
        "RL H", // 14
        "RL L", // 15
        "RL (HL)", // 16
        "RL A", // 17
        "RR B", // 18
        "RR C", // 19
        "RR D", // 1A
        "RR E", // 1B
        "RR H", // 1C
        "RR L", // 1D
        "RR (HL)", // 1E
        "RR A", // 1F
        "SLA B", // 20
        "SLA C", // 21
        "SLA D", // 22
        "SLA E", // 23
        "SLA H", // 24
        "SLA L", // 25
        "SLA (HL)", // 26
        "SLA A", // 27
        "SRA B", // 28
        "SRA C", // 29
        "SRA D", // 2A
        "SRA E", // 2B
        "SRA H", // 2C
        "SRA L", // 2D
        "SRA (HL)", // 2E
        "SRA A", // 2F
        "Unknown", // 30
        "Unknown", // 31
        "Unknown", // 32
        "Unknown", // 33
        "Unknown", // 34
        "Unknown", // 35
        "Unknown", // 36
        "Unknown", // 37
        "SRL B", // 38
        "SRL C", // 39
        "SRL D", // 3A
        "SRL E", // 3B
        "SRL H", // 3C
        "SRL L", // 3D
        "SRL (HL)", // 3E
        "SRL A", // 3F
        "BIT 0,B", // 40
        "BIT 0,C", // 41
        "BIT 0,D", // 42
        "BIT 0,E", // 43
        "BIT 0,H", // 44
        "BIT 0,L", // 45
        "BIT 0,(HL)", // 46
        "BIT 0,A", // 47
        "BIT 1,B", // 48
        "BIT 1,C", // 49
        "BIT 1,D", // 4A
        "BIT 1,E", // 4B
        "BIT 1,H", // 4C
        "BIT 1,L", // 4D
        "BIT 1,(HL)", // 4E
        "BIT 1,A", // 4F
        "BIT 2,B", // 50
        "BIT 2,C", // 51
        "BIT 2,D", // 52
        "BIT 2,E", // 53
        "BIT 2,H", // 54
        "BIT 2,L", // 55
        "BIT 2,(HL)", // 56
        "BIT 2,A", // 57
        "BIT 3,B", // 58
        "BIT 3,C", // 59
        "BIT 3,D", // 5A
        "BIT 3,E", // 5B
        "BIT 3,H", // 5C
        "BIT 3,L", // 5D
        "BIT 3,(HL)", // 5E
        "BIT 3,A", // 5F
        "BIT 4,B", // 60
        "BIT 4,C", // 61
        "BIT 4,D", // 62
        "BIT 4,E", // 63
        "BIT 4,H", // 64
        "BIT 4,L", // 65
        "BIT 4,(HL)", // 66
        "BIT 4,A", // 67
        "BIT 5,B", // 68
        "BIT 5,C", // 69
        "BIT 5,D", // 6A
        "BIT 5,E", // 6B
        "BIT 5,H", // 6C
        "BIT 5,L", // 6D
        "BIT 5,(HL)", // 6E
        "BIT 5,A", // 6F
        "BIT 6,B", // 70
        "BIT 6,C", // 71
        "BIT 6,D", // 72
        "BIT 6,E", // 73
        "BIT 6,H", // 74
        "BIT 6,L", // 75
        "BIT 6,(HL)", // 76
        "BIT 6,A", // 77
        "BIT 7,B", // 78
        "BIT 7,C", // 79
        "BIT 7,D", // 7A
        "BIT 7,E", // 7B
        "BIT 7,H", // 7C
        "BIT 7,L", // 7D
        "BIT 7,(HL)", // 7E
        "BIT 7,A", // 7F
        "RES 0,B", // 80
        "RES 0,C", // 81
        "RES 0,D", // 82
        "RES 0,E", // 83
        "RES 0,H", // 84
        "RES 0,L", // 85
        "RES 0,(HL)", // 86
        "RES 0,A", // 87
        "RES 1,B", // 88
        "RES 1,C", // 89
        "RES 1,D", // 8A
        "RES 1,E", // 8B
        "RES 1,H", // 8C
        "RES 1,L", // 8D
        "RES 1,(HL)", // 8E
        "RES 1,A", // 8F
        "RES 2,B", // 90
        "RES 2,C", // 91
        "RES 2,D", // 92
        "RES 2,E", // 93
        "RES 2,H", // 94
        "RES 2,L", // 95
        "RES 2,(HL)", // 96
        "RES 2,A", // 97
        "RES 3,B", // 98
        "RES 3,C", // 99
        "RES 3,D", // 9A
        "RES 3,E", // 9B
        "RES 3,H", // 9C
        "RES 3,L", // 9D
        "RES 3,(HL)", // 9E
        "RES 3,A", // 9F
        "RES 4,B", // A0
        "RES 4,C", // A1
        "RES 4,D", // A2
        "RES 4,E", // A3
        "RES 4,H", // A4
        "RES 4,L", // A5
        "RES 4,(HL)", // A6
        "RES 4,A", // A7
        "RES 5,B", // A8
        "RES 5,C", // A9
        "RES 5,D", // AA
        "RES 5,E", // AB
        "RES 5,H", // AC
        "RES 5,L", // AD
        "RES 5,(HL)", // AE
        "RES 5,A", // AF
        "RES 6,B", // B0
        "RES 6,C", // B1
        "RES 6,D", // B2
        "RES 6,E", // B3
        "RES 6,H", // B4
        "RES 6,L", // B5
        "RES 6,(HL)", // B6
        "RES 6,A", // B7
        "RES 7,B", // B8
        "RES 7,C", // B9
        "RES 7,D", // BA
        "RES 7,E", // BB
        "RES 7,H", // BC
        "RES 7,L", // BD
        "RES 7,(HL)", // BE
        "RES 7,A", // BF
        "SET 0,B", // C0
        "SET 0,C", // C1
        "SET 0,D", // C2
        "SET 0,E", // C3
        "SET 0,H", // C4
        "SET 0,L", // C5
        "SET 0,(HL)", // C6
        "SET 0,A", // C7
        "SET 1,B", // C8
        "SET 1,C", // C9
        "SET 1,D", // CA
        "SET 1,E", // CB
        "SET 1,H", // CC
        "SET 1,L", // CD
        "SET 1,(HL)", // CE
        "SET 1,A", // CF
        "SET 2,B", // D0
        "SET 2,C", // D1
        "SET 2,D", // D2
        "SET 2,E", // D3
        "SET 2,H", // D4
        "SET 2,L", // D5
        "SET 2,(HL)", // D6
        "SET 2,A", // D7
        "SET 3,B", // D8
        "SET 3,C", // D9
        "SET 3,D", // DA
        "SET 3,E", // DB
        "SET 3,H", // DC
        "SET 3,L", // DD
        "SET 3,(HL)", // DE
        "SET 3,A", // DF
        "SET 4,B", // E0
        "SET 4,C", // E1
        "SET 4,D", // E2
        "SET 4,E", // E3
        "SET 4,H", // E4
        "SET 4,L", // E5
        "SET 4,(HL)", // E6
        "SET 4,A", // E7
        "SET 5,B", // E8
        "SET 5,C", // E9
        "SET 5,D", // EA
        "SET 5,E", // EB
        "SET 5,H", // EC
        "SET 5,L", // ED
        "SET 5,(HL)", // EE
        "SET 5,A", // EF
        "SET 6,B", // F0
        "SET 6,C", // F1
        "SET 6,D", // F2
        "SET 6,E", // F3
        "SET 6,H", // F4
        "SET 6,L", // F5
        "SET 6,(HL)", // F6
        "SET 6,A", // F7
        "SET 7,B", // F8
        "SET 7,C", // F9
        "SET 7,D", // FA
        "SET 7,E", // FB
        "SET 7,H", // FC
        "SET 7,L", // FD
        "SET 7,(HL)", // FE
        "SET 7,A", // FF
    ]
}

#[test]
fn primary_table_gives_every_opcode_its_mnemonic() {
    let expected = primary_expected();
    assert_eq!(expected.len(), 256);
    let mut opcode: usize = 0;
    while opcode < 256 {
        if opcode != 0xCB && opcode != 0xDD && opcode != 0xFD {
            let record = first(&[opcode as u8, 0x34, 0x12]);
            assert_eq!(record.mnemonic, expected[opcode].0, "opcode {:02X}", opcode);
            assert_eq!(record.opcodes_data.len(), expected[opcode].1, "opcode {:02X}", opcode);
            assert_eq!(record.opcodes_data[..], [opcode as u8, 0x34, 0x12][..expected[opcode].1]);
            assert_eq!(record.offset, 0);
        }
        opcode += 1;
    }
}

#[test]
fn index_table_gives_every_second_byte_its_mnemonic() {
    let expected = index_expected();
    assert_eq!(expected.len(), 256);
    let mut second: usize = 0;
    while second < 256 {
        let record = first(&[0xDD, second as u8, 0x85, 0x12]);
        assert_eq!(record.mnemonic, expected[second].0, "DD {:02X}", second);
        assert_eq!(record.opcodes_data.len(), expected[second].1, "DD {:02X}", second);
        let other = first(&[0xFD, second as u8, 0x85, 0x12]);
        assert_eq!(other.mnemonic, expected[second].0.replace("IX", "IY"), "FD {:02X}", second);
        assert_eq!(other.opcodes_data.len(), expected[second].1, "FD {:02X}", second);
        second += 1;
    }
}

#[test]
fn bit_table_gives_every_second_byte_its_mnemonic() {
    let expected = bit_expected();
    assert_eq!(expected.len(), 256);
    let mut second: usize = 0;
    while second < 256 {
        let record = first(&[0xCB, second as u8, 0x85, 0x12]);
        assert_eq!(record.mnemonic, expected[second], "CB {:02X}", second);
        assert_eq!(record.opcodes_data, vec![0xCB, second as u8]);
        second += 1;
    }
}
