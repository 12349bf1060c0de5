use apple_ie::assembler::assemble;
use apple_ie::cpu::Cpu;
use apple_ie::error::Error;

#[test]
fn create_cpu() {
    let mut _cpu: Cpu = Cpu::new();
}

#[test]
fn assemble_program() -> Result<(), Error> {
    let program: &str = "LDA #$c0
             BRK";

    let bytes: Vec<u8> = assemble(program)?;

    println!("{:?}", bytes);

    assert_eq!(bytes, [169, 192, 0]);
    Ok(())
}

#[test]
fn load_cpu() -> Result<(), Error> {
    let mut cpu: Cpu = Cpu::new();

    let program: &str = "LDA #$c0
             BRK";

    let bytes: Vec<u8> = assemble(program)?;

    cpu.load(0x800, &bytes)?;
    Ok(())
}
