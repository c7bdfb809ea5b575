use offline_election::cli::{
    chain_for_spec_name, output_target, select_block, InvalidBlock, OutputTarget, SimulateArgs,
    SnapshotArgs, UnsupportedChain,
};
use offline_election::models::{Algorithm, Chain};

#[test]
fn arguments_have_defaults() {
    let args = SimulateArgs::default();
    assert_eq!(args.block, "latest");
    assert_eq!(args.algorithm, Algorithm::SeqPhragmen);
    assert_eq!(args.iterations, 0);
    assert!(!args.reduce);
    assert_eq!(args.desired_validators, None);
    assert_eq!(args.max_nominations, None);
    assert_eq!(args.min_nominator_bond, None);
    assert_eq!(args.min_validator_bond, None);
    assert_eq!(args.output, "-");
    assert_eq!(args.manual_override, None);
    let args = SnapshotArgs::default();
    assert_eq!(args.block, "latest");
    assert_eq!(args.output, "-");
}

#[test]
fn chains_go_by_the_name_of_their_runtime() {
    assert_eq!(chain_for_spec_name("polkadot"), Ok(Chain::Polkadot));
    assert_eq!(chain_for_spec_name("statemint"), Ok(Chain::Polkadot));
    assert_eq!(chain_for_spec_name("kusama"), Ok(Chain::Kusama));
    assert_eq!(chain_for_spec_name("statemine"), Ok(Chain::Kusama));
    assert_eq!(chain_for_spec_name("substrate"), Ok(Chain::Substrate));
    assert_eq!(chain_for_spec_name("Polkadot"), Err(UnsupportedChain));
    assert_eq!(chain_for_spec_name(""), Err(UnsupportedChain));
    assert_eq!(UnsupportedChain.message(), "Unsupported chain");
}

#[test]
fn the_latest_block_has_no_hash() {
    assert_eq!(select_block("latest"), Ok(None));
}

#[test]
fn a_block_goes_by_its_hash() {
    let digits = "000102030405060708090a0b0c0d0e0f101112131415161718191A1B1C1D1EfF";
    let mut hash = [0u8; 32];
    for i in 0..31 {
        hash[i] = i as u8;
    }
    hash[31] = 0xff;
    assert_eq!(select_block(digits), Ok(Some(hash)));
    assert_eq!(select_block(&format!("0x{}", digits)), Ok(Some(hash)));
    // Blanks are passed over.
    assert_eq!(
        select_block(&format!("0x {}\t{} {}\r\n", &digits[..3], &digits[3..40], &digits[40..])),
        Ok(Some(hash))
    );
}

#[test]
fn anything_else_is_no_block() {
    let digits = "00".repeat(32);
    assert_eq!(select_block(""), Err(InvalidBlock));
    assert_eq!(select_block("Latest"), Err(InvalidBlock));
    assert_eq!(select_block(&digits[1..]), Err(InvalidBlock));
    assert_eq!(select_block(&format!("{}0", digits)), Err(InvalidBlock));
    assert_eq!(select_block(&format!("{}g", digits)), Err(InvalidBlock));
    assert_eq!(select_block(&format!("0X{}", digits)), Err(InvalidBlock));
    assert_eq!(select_block(&format!("0x0x{}", digits)), Err(InvalidBlock));
    assert_eq!(select_block(&format!(" 0x{}", digits)), Err(InvalidBlock));
    assert_eq!(select_block(&format!("{}\u{a0}", digits)), Err(InvalidBlock));
}

#[test]
fn a_dash_has_the_result_printed() {
    assert!(matches!(output_target("-".to_string()), OutputTarget::Stdout));
    assert!(matches!(
        output_target("out.json".to_string()),
        OutputTarget::File(path) if path == "out.json"
    ));
    assert!(matches!(output_target("--".to_string()), OutputTarget::File(_)));
    assert!(matches!(output_target("".to_string()), OutputTarget::File(_)));
}

#[test]
fn without_an_output_path_the_result_is_printed() {
    assert!(matches!(output_target(SimulateArgs::default().output), OutputTarget::Stdout));
    assert!(matches!(output_target(SnapshotArgs::default().output), OutputTarget::Stdout));
}

#[test]
fn the_chain_says_how_many_are_elected_unless_asked() {
    let mut args = SimulateArgs::default();
    assert_eq!(args.to_elect(600), 600);
    args.desired_validators = Some(0);
    assert_eq!(args.to_elect(600), 0);
    args.desired_validators = Some(297);
    assert_eq!(args.to_elect(600), 297);
}
