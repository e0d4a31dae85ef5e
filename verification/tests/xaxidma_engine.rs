use embeddedsw_rs::regs::RegisterFile;
use embeddedsw_rs::status::{
    XST_DMA_ERROR, XST_FAILURE, XST_INVALID_PARAM, XST_NOT_SGDMA, XST_SUCCESS,
};
use embeddedsw_rs::xaxidma::{
    irq_disabled, irq_enabled, DmaDirection, DmaError, EngineState, TransferDescriptor, XAxiDma,
    XAxiDmaConfig, XAXIDMA_IRQ_ALL_MASK,
};

const BASE: u32 = 0xA000_0000;

fn engine(has_sg: bool) -> XAxiDma {
    let config = XAxiDmaConfig { device_id: 0, base_addr: BASE, has_sg };
    XAxiDma::cfg_initialize(&config, XST_SUCCESS).unwrap()
}

fn submit(dma: &mut XAxiDma, direction: DmaDirection, status: i32) -> Result<(), DmaError> {
    let request = TransferDescriptor { buff_addr: 0x2000, length: 16, direction };
    dma.simple_transfer(request, status)
}

#[test]
fn round_trip_simple_transfer() {
    let mut dma = engine(false);
    let direction = DmaDirection::DMAToDevice;
    let request = dma.transfer_request(0x1000, 64, direction).unwrap();
    assert_eq!(request, TransferDescriptor { buff_addr: 0x1000, length: 64, direction });
    assert_eq!(dma.simple_transfer(request, XST_SUCCESS), Ok(()));
    assert_eq!(dma.state(), EngineState::Running);
    let mut polls = 0;
    let answers = [1u32, 1, 1, 0];
    while dma.busy(direction, answers[polls]) {
        polls += 1;
    }
    assert_eq!(polls, 3);
    assert_eq!(dma.state(), EngineState::Idle);
    assert!(!dma.in_flight(direction));
}

#[test]
fn transfer_request_describes_the_transfer() {
    let dma = engine(false);
    let request = dma.transfer_request(0xDEAD_0000, 4096, DmaDirection::DeviceToDMA);
    assert_eq!(
        request,
        Ok(TransferDescriptor {
            buff_addr: 0xDEAD_0000,
            length: 4096,
            direction: DmaDirection::DeviceToDMA
        })
    );
    assert_eq!(dma.state(), EngineState::Idle);
}

#[test]
fn submit_while_busy_is_a_submission_error() {
    let mut dma = engine(false);
    let direction = DmaDirection::DMAToDevice;
    assert_eq!(submit(&mut dma, direction, XST_SUCCESS), Ok(()));
    assert_eq!(dma.transfer_request(0x3000, 8, direction), Err(DmaError::Submisson));
    assert_eq!(submit(&mut dma, direction, XST_SUCCESS), Err(DmaError::Submisson));
    assert_eq!(submit(&mut dma, direction, XST_INVALID_PARAM), Err(DmaError::Submisson));
    assert!(dma.in_flight(direction));
    assert_eq!(dma.state(), EngineState::Running);
}

#[test]
fn busy_report_from_hardware_blocks_submission() {
    let mut dma = engine(false);
    let direction = DmaDirection::DeviceToDMA;
    assert!(dma.busy(direction, 1));
    assert_eq!(dma.transfer_request(0x3000, 8, direction), Err(DmaError::Submisson));
    assert_eq!(submit(&mut dma, direction, XST_SUCCESS), Err(DmaError::Submisson));
}

#[test]
fn directions_are_independent() {
    let mut dma = engine(false);
    assert_eq!(submit(&mut dma, DmaDirection::DMAToDevice, XST_SUCCESS), Ok(()));
    assert!(dma.in_flight(DmaDirection::DMAToDevice));
    assert!(!dma.in_flight(DmaDirection::DeviceToDMA));
    assert_eq!(submit(&mut dma, DmaDirection::DeviceToDMA, XST_SUCCESS), Ok(()));
    assert!(!dma.busy(DmaDirection::DMAToDevice, 0));
    assert!(dma.in_flight(DmaDirection::DeviceToDMA));
    assert_eq!(dma.state(), EngineState::Running);
    assert!(!dma.busy(DmaDirection::DeviceToDMA, 0));
    assert_eq!(dma.state(), EngineState::Idle);
}

#[test]
fn submit_maps_driver_status() {
    let direction = DmaDirection::DMAToDevice;
    let mut dma = engine(false);
    assert_eq!(submit(&mut dma, direction, XST_FAILURE), Err(DmaError::Submisson));
    assert_eq!(dma.state(), EngineState::Idle);
    assert_eq!(submit(&mut dma, direction, XST_INVALID_PARAM), Err(DmaError::InvalidParam));
    assert_eq!(dma.state(), EngineState::Idle);
    assert_eq!(submit(&mut dma, direction, XST_NOT_SGDMA), Err(DmaError::Unknown));
    assert_eq!(submit(&mut dma, direction, -7), Err(DmaError::Unknown));
    assert!(!dma.in_flight(direction));
    assert_eq!(submit(&mut dma, direction, XST_SUCCESS), Ok(()));
    assert!(dma.in_flight(direction));
}

#[test]
fn scatter_gather_engine_takes_no_simple_transfer() {
    let mut dma = engine(true);
    let direction = DmaDirection::DMAToDevice;
    assert_eq!(dma.transfer_request(0x1000, 64, direction), Err(DmaError::Submisson));
    assert_eq!(submit(&mut dma, direction, XST_SUCCESS), Err(DmaError::Submisson));
    assert!(!dma.in_flight(direction));
}

#[test]
fn busy_turns_every_nonzero_flag_into_true() {
    let mut dma = engine(false);
    assert!(!dma.busy(DmaDirection::DMAToDevice, 0));
    assert!(dma.busy(DmaDirection::DMAToDevice, 1));
    assert!(dma.busy(DmaDirection::DMAToDevice, 2));
    assert!(dma.busy(DmaDirection::DMAToDevice, u32::MAX));
}

#[test]
fn reset_is_done_turns_every_nonzero_flag_into_true() {
    let dma = engine(false);
    assert!(!dma.reset_is_done(0));
    assert!(dma.reset_is_done(1));
    assert!(dma.reset_is_done(0x8000_0000));
}

#[test]
fn reset_returns_engine_to_idle() {
    let mut dma = engine(true);
    assert!(dma.busy(DmaDirection::DMAToDevice, 1));
    assert!(dma.busy(DmaDirection::DeviceToDMA, 1));
    assert_eq!(dma.pause(XST_SUCCESS), Ok(()));
    assert_eq!(dma.state(), EngineState::Paused);
    dma.reset();
    let mut polls = 0;
    let answers = [0u32, 0, 1];
    while !dma.reset_is_done(answers[polls]) {
        polls += 1;
    }
    assert_eq!(polls, 2);
    assert_eq!(dma.state(), EngineState::Idle);
    assert!(!dma.in_flight(DmaDirection::DMAToDevice));
    assert!(!dma.in_flight(DmaDirection::DeviceToDMA));
    assert!(dma.has_sg());
    assert_eq!(dma.reg_base(), BASE);
}

#[test]
fn reset_lets_a_busy_direction_take_a_transfer_again() {
    let mut dma = engine(false);
    let direction = DmaDirection::DMAToDevice;
    assert_eq!(submit(&mut dma, direction, XST_SUCCESS), Ok(()));
    dma.reset();
    assert_eq!(submit(&mut dma, direction, XST_SUCCESS), Ok(()));
}

#[test]
fn pause_outside_scatter_gather_mode_fails_and_changes_nothing() {
    let mut dma = engine(false);
    assert_eq!(submit(&mut dma, DmaDirection::DMAToDevice, XST_SUCCESS), Ok(()));
    for status in [XST_SUCCESS, XST_NOT_SGDMA, XST_FAILURE, -1] {
        assert_eq!(dma.pause(status), Err(DmaError::NotSGDMA));
        assert_eq!(dma.state(), EngineState::Running);
        assert!(dma.in_flight(DmaDirection::DMAToDevice));
        assert!(!dma.in_flight(DmaDirection::DeviceToDMA));
    }
}

#[test]
fn pause_maps_driver_status() {
    let mut dma = engine(true);
    assert_eq!(dma.pause(XST_NOT_SGDMA), Err(DmaError::NotSGDMA));
    assert_eq!(dma.pause(XST_FAILURE), Err(DmaError::Unknown));
    assert_eq!(dma.pause(XST_DMA_ERROR), Err(DmaError::Unknown));
    assert_eq!(dma.state(), EngineState::Idle);
    assert_eq!(dma.pause(XST_SUCCESS), Ok(()));
    assert_eq!(dma.state(), EngineState::Paused);
}

#[test]
fn resume_maps_driver_status() {
    let mut dma = engine(true);
    assert!(dma.busy(DmaDirection::DeviceToDMA, 1));
    assert_eq!(dma.pause(XST_SUCCESS), Ok(()));
    assert_eq!(dma.resume(XST_NOT_SGDMA), Err(DmaError::NotSGDMA));
    assert_eq!(dma.resume(XST_DMA_ERROR), Err(DmaError::Channel));
    assert_eq!(dma.resume(XST_FAILURE), Err(DmaError::Unknown));
    assert_eq!(dma.state(), EngineState::Paused);
    assert_eq!(dma.resume(XST_SUCCESS), Ok(()));
    assert_eq!(dma.state(), EngineState::Running);
}

#[test]
fn resume_outside_scatter_gather_mode_fails() {
    let mut dma = engine(false);
    assert_eq!(dma.resume(XST_SUCCESS), Err(DmaError::NotSGDMA));
    assert_eq!(dma.resume(XST_DMA_ERROR), Err(DmaError::NotSGDMA));
    assert_eq!(dma.state(), EngineState::Idle);
}

#[test]
fn self_test_passes_on_success_only() {
    let dma = engine(false);
    assert_eq!(dma.self_test(XST_SUCCESS), Ok(()));
    assert_eq!(dma.self_test(XST_FAILURE), Err(DmaError::Unknown));
    assert_eq!(dma.self_test(XST_INVALID_PARAM), Err(DmaError::Unknown));
    assert_eq!(dma.self_test(-1), Err(DmaError::Unknown));
}

#[test]
fn interrupt_mask_words() {
    assert_eq!(XAXIDMA_IRQ_ALL_MASK, 0x7000);
    assert_eq!(irq_enabled(0), 0x7000);
    assert_eq!(irq_enabled(0x0001_0003), 0x0001_7003);
    assert_eq!(irq_enabled(0xFFFF_FFFF), 0xFFFF_FFFF);
    assert_eq!(irq_disabled(0), 0);
    assert_eq!(irq_disabled(0x0001_7003), 0x0001_0003);
    assert_eq!(irq_disabled(0xFFFF_FFFF), 0xFFFF_8FFF);
    assert_eq!(irq_disabled(0x1000), 0);
}

#[test]
fn enable_then_disable_keeps_other_bits() {
    let dma = engine(false);
    for direction in [DmaDirection::DMAToDevice, DmaDirection::DeviceToDMA] {
        for before in [0u32, 0x0001_0003, 0x0001_5003, 0xFFFF_FFFF, 0x7000] {
            let control = dma.control_register(direction);
            let mut regs = RegisterFile::new();
            regs.xil_out32(control, before);
            regs.xil_out32(control + 4, 0x1234);
            dma.irq_interrupt_enable(&mut regs, direction);
            assert_eq!(regs.xil_in32(control), before | 0x7000);
            dma.irq_interrupt_disable(&mut regs, direction);
            assert_eq!(regs.xil_in32(control), before & !0x7000);
            assert_eq!(regs.xil_in32(control) & !0x7000, before & !0x7000);
            assert_eq!(regs.xil_in32(control + 4), 0x1234);
        }
    }
}

#[test]
fn interrupt_enable_touches_the_bank_of_its_direction_only() {
    let dma = engine(false);
    let mut regs = RegisterFile::new();
    regs.xil_out32(BASE, 0x1);
    regs.xil_out32(BASE + 0x30, 0x2);
    dma.irq_interrupt_enable(&mut regs, DmaDirection::DeviceToDMA);
    assert_eq!(regs.xil_in32(BASE), 0x1);
    assert_eq!(regs.xil_in32(BASE + 0x30), 0x7002);
    dma.irq_interrupt_enable(&mut regs, DmaDirection::DMAToDevice);
    assert_eq!(regs.xil_in32(BASE), 0x7001);
    dma.irq_interrupt_disable(&mut regs, DmaDirection::DeviceToDMA);
    assert_eq!(regs.xil_in32(BASE), 0x7001);
    assert_eq!(regs.xil_in32(BASE + 0x30), 0x2);
}

#[test]
fn interrupt_enable_on_unwritten_register() {
    let dma = engine(false);
    let mut regs = RegisterFile::new();
    dma.irq_interrupt_enable(&mut regs, DmaDirection::DMAToDevice);
    assert_eq!(regs.xil_in32(BASE), 0x7000);
}

#[test]
fn completion_told_by_interrupt_frees_the_direction() {
    let mut dma = engine(false);
    assert_eq!(submit(&mut dma, DmaDirection::DMAToDevice, XST_SUCCESS), Ok(()));
    assert_eq!(submit(&mut dma, DmaDirection::DeviceToDMA, XST_SUCCESS), Ok(()));
    dma.transfer_complete(DmaDirection::DeviceToDMA);
    assert!(dma.in_flight(DmaDirection::DMAToDevice));
    assert!(!dma.in_flight(DmaDirection::DeviceToDMA));
    assert_eq!(dma.state(), EngineState::Running);
    assert_eq!(submit(&mut dma, DmaDirection::DeviceToDMA, XST_SUCCESS), Ok(()));
    dma.transfer_complete(DmaDirection::DeviceToDMA);
    dma.transfer_complete(DmaDirection::DMAToDevice);
    assert_eq!(dma.state(), EngineState::Idle);
}
