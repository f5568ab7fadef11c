use vm_pulse::cpu::CPU;
use vm_pulse::cpu::RAM_SIZE;
use vm_pulse::cpu::REGISTER_COUNT;

#[test]
fn initial_cpu_state_is_constructible() {
    let _cpu = CPU::new();
    assert_eq!(RAM_SIZE, 4096);
    assert_eq!(REGISTER_COUNT, 16);
}
