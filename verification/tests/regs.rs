use embeddedsw_rs::regs::RegisterFile;

#[test]
fn unwritten_register_reads_zero() {
    let regs = RegisterFile::new();
    assert_eq!(regs.xil_in32(0), 0);
    assert_eq!(regs.xil_in32(0xF900_0000), 0);
    assert_eq!(regs.read_reg(0x4000_0000, 0x30), 0);
}

#[test]
fn written_register_reads_back() {
    let mut regs = RegisterFile::new();
    regs.xil_out32(0x4000_0000, 0xDEAD_BEEF);
    assert_eq!(regs.xil_in32(0x4000_0000), 0xDEAD_BEEF);
    regs.xil_out32(0x4000_0000, 7);
    assert_eq!(regs.xil_in32(0x4000_0000), 7);
}

#[test]
fn write_leaves_other_registers() {
    let mut regs = RegisterFile::new();
    regs.xil_out32(0x10, 1);
    regs.xil_out32(0x14, 2);
    assert_eq!(regs.xil_in32(0x10), 1);
    assert_eq!(regs.xil_in32(0x14), 2);
    assert_eq!(regs.xil_in32(0x18), 0);
}

#[test]
fn register_is_found_by_base_and_offset() {
    let mut regs = RegisterFile::new();
    regs.write_reg(0x4000_0000, 0x34, 0x55);
    assert_eq!(regs.xil_in32(0x4000_0034), 0x55);
    assert_eq!(regs.read_reg(0x4000_0000, 0x34), 0x55);
    assert_eq!(regs.read_reg(0x4000_0030, 0x04), 0x55);
    assert_eq!(regs.read_reg(0x4000_0000, 0x30), 0);
}

#[test]
fn highest_address_is_a_register() {
    let mut regs = RegisterFile::new();
    regs.write_reg(0xFFFF_FFF0, 0xF, 9);
    assert_eq!(regs.read_reg(0xFFFF_FFFF, 0), 9);
}
