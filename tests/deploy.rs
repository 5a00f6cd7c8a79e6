use starkli_deploy::address::derive_address;
use starkli_deploy::address::Uniqueness;
use starkli_deploy::deploy::default_udc_address;
use starkli_deploy::deploy::Deploy;
use starkli_deploy::deploy::DeployError;
use starkli_deploy::fee::fee_in_ether;
use starkli_deploy::fee::fee_with_buffer;
use starkli_deploy::fee::resolve_fee;
use starkli_deploy::fee::FeeOutcome;
use starkli_deploy::fee::FeeSetting;
use starkli_deploy::felt::Felt;
use starkli_deploy::felt::FeltParseError;
use starkli_deploy::search::search_salt;
use starkli_deploy::search::SearchError;
use starkli_deploy::text::left_pad_with_zeros;
use starkli_deploy::text::starts_with;
use starkli_deploy::workflow::step;
use starkli_deploy::workflow::Action;
use starkli_deploy::workflow::DeployPlan;
use starkli_deploy::workflow::Event;
use starkli_deploy::workflow::Stage;
use starkli_deploy::workflow::WorkflowError;

fn felt(s: &str) -> Felt {
    Felt::from_hex_be(s).unwrap()
}

fn udc() -> Felt {
    felt("0x041a78e741e5af2fec34b695679bc6891742439f7afb8484ecd7766661ad02bf")
}

fn unique(deployer: &str) -> Uniqueness {
    Uniqueness::Unique { deployer_address: felt(deployer), udc_address: udc() }
}

#[test]
fn reference_vector_not_unique() {
    let address = derive_address(
        felt("0x06df0e9a9842d97ff3f4c6de7494d6e69d0a107a72150f9c53d59515b91ed9cb"),
        felt("0x0562fc1d911530d18a86ea3ef4be50018923898d3c573288c5abb9c2344459ed"),
        &Uniqueness::NotUnique,
        &vec![felt("0x1234")],
    );
    assert_eq!(address, felt("0x0288e5952d2f2f0e897ea0c5401c6e9f584a89eebfb08b5b26f090a8bbf67eb6"));
}

#[test]
fn reference_vector_unique() {
    let address = derive_address(
        felt("0x01f65976b95bf17ae1cb04afc9fc1eeee26d3e1aaa1f30aa535bf261e4322ab8"),
        felt("0x0562fc1d911530d18a86ea3ef4be50018923898d3c573288c5abb9c2344459ed"),
        &unique("0x00b1461de04c6a1aa3375bdf9b7723a8779c082ffe21311d683a0b15c078b5dc"),
        &vec![felt("0x1234")],
    );
    assert_eq!(address, felt("0x02406943b25942021f213b047c8765e531dddce3b981722f7aeb2ca137e18dbf"));
}

#[test]
fn derivation_is_deterministic() {
    let args = vec![felt("0x1"), felt("0x2")];
    let mode = unique("0x123");
    let a = derive_address(Felt::from_u64(7), felt("0xabc"), &mode, &args);
    let b = derive_address(Felt::from_u64(7), felt("0xabc"), &mode, &args);
    assert_eq!(a, b);
}

#[test]
fn mode_changes_address() {
    let args: Vec<Felt> = vec![];
    let a = derive_address(Felt::from_u64(3), felt("0xabc"), &unique("0x123"), &args);
    let b = derive_address(Felt::from_u64(3), felt("0xabc"), &Uniqueness::NotUnique, &args);
    assert_ne!(a, b);
}

#[test]
fn argument_order_matters() {
    let a = derive_address(Felt::zero(), felt("0xabc"), &Uniqueness::NotUnique, &vec![felt("0x1"), felt("0x2")]);
    let b = derive_address(Felt::zero(), felt("0xabc"), &Uniqueness::NotUnique, &vec![felt("0x2"), felt("0x1")]);
    assert_ne!(a, b);
}

#[test]
fn left_pad_short_and_long() {
    assert_eq!(left_pad_with_zeros("abc", 6), "000abc");
    assert_eq!(left_pad_with_zeros("abcdef", 3), "abcdef");
    assert_eq!(left_pad_with_zeros("abc", 3), "abc");
    assert_eq!(left_pad_with_zeros("", 2), "00");
}

#[test]
fn prefix_test() {
    assert!(starts_with("04515abc", "04515"));
    assert!(!starts_with("0451", "04515"));
    assert!(starts_with("abc", ""));
    assert!(!starts_with("14515", "04515"));
}

#[test]
fn hex_renderings() {
    assert_eq!(felt("0x1234").to_hex(), "1234");
    assert_eq!(Felt::zero().to_hex(), "0");
    assert_eq!(Felt::from_u64(255).padded_hex(), format!("{}ff", "0".repeat(62)));
    assert_eq!(
        default_udc_address().to_fixed_hex(),
        "0x041a78e741e5af2fec34b695679bc6891742439f7afb8484ecd7766661ad02bf"
    );
    assert_eq!(default_udc_address(), udc());
}

#[test]
fn parse_hex_cases() {
    assert_eq!(felt("abc").to_hex(), "abc");
    assert_eq!(felt("0xABC").to_hex(), "abc");
    assert_eq!(Felt::from_hex_be("0xxyz"), Err(FeltParseError::InvalidCharacter));
    assert_eq!(Felt::from_hex_be(&"1".repeat(65)), Err(FeltParseError::OutOfRange));
    assert_eq!(
        Felt::from_hex_be("0x0800000000000011000000000000000000000000000000000000000000000001"),
        Err(FeltParseError::OutOfRange)
    );
    assert!(Felt::from_hex_be("0x0800000000000011000000000000000000000000000000000000000000000000").is_ok());
}

#[test]
fn parse_dec_cases() {
    assert_eq!(Felt::from_dec_str("4660").unwrap(), felt("0x1234"));
    assert_eq!(Felt::from_dec_str("12a"), Err(FeltParseError::InvalidCharacter));
    assert_eq!(
        Felt::from_dec_str(
            "3618502788666131213697322783095070105623107215331596699973092056135872020481"
        ),
        Err(FeltParseError::OutOfRange)
    );
}

#[test]
fn bytes_round_trip() {
    let f = felt("0x1234");
    let b = f.to_bytes_be();
    assert_eq!(b[30], 0x12);
    assert_eq!(b[31], 0x34);
    assert_eq!(Felt::from_bytes_be(b), Some(f));
    assert_eq!(Felt::from_bytes_be([0xff; 32]), None);
    assert_eq!(Felt::from_u128(1u128 << 100).to_hex(), format!("1{}", "0".repeat(25)));
}

fn first_hit_by_hand(class_hash: Felt, mode: &Uniqueness, args: &Vec<Felt>, prefix: &str) -> u64 {
    let mut salt: u64 = 0;
    loop {
        let a = derive_address(Felt::from_u64(salt), class_hash, mode, args);
        if a.padded_hex().starts_with(prefix) {
            return salt;
        }
        salt += 1;
    }
}

#[test]
fn search_finds_first_matching_salt() {
    let mode = unique("0x123");
    let args: Vec<Felt> = vec![];
    let (salt, address) = search_salt(felt("0xabc"), &mode, &args, "04", 0, None).unwrap();
    assert!(address.padded_hex().starts_with("04"));
    assert_eq!(address, derive_address(salt, felt("0xabc"), &mode, &args));
    let expected = first_hit_by_hand(felt("0xabc"), &mode, &args, "04");
    assert_eq!(salt, Felt::from_u64(expected));
    let again = search_salt(felt("0xabc"), &mode, &args, "04", 0, None).unwrap();
    assert_eq!(again, (salt, address));
}

#[test]
fn search_from_later_start() {
    let mode = Uniqueness::NotUnique;
    let args = vec![felt("0x1")];
    let (first, _) = search_salt(felt("0xabc"), &mode, &args, "00", 0, None).unwrap();
    let next_start = first.to_bytes_be()[31] as u64 + 1;
    let (second, address) = search_salt(felt("0xabc"), &mode, &args, "00", next_start, None).unwrap();
    assert_ne!(first, second);
    assert!(address.padded_hex().starts_with("00"));
}

#[test]
fn search_exhausted() {
    let mode = Uniqueness::NotUnique;
    let args: Vec<Felt> = vec![];
    assert_eq!(search_salt(felt("0xabc"), &mode, &args, "0", 0, Some(0)), Err(SearchError::Exhausted));
    assert_eq!(search_salt(felt("0xabc"), &mode, &args, "x", 5, Some(20)), Err(SearchError::Exhausted));
}

#[test]
fn fee_buffer_exact() {
    assert_eq!(fee_with_buffer(1000), 1500);
    assert_eq!(fee_with_buffer(1), 1);
    assert_eq!(fee_with_buffer(3), 4);
    assert_eq!(fee_with_buffer(u64::MAX), (u64::MAX as u128) * 3 / 2);
}

#[test]
fn fee_policies() {
    let manual = FeeSetting::Manual(felt("0x99"));
    assert_eq!(resolve_fee(&manual, 1000), FeeOutcome::Resolved(felt("0x99")));
    assert!(!manual.needs_estimate());
    assert_eq!(resolve_fee(&FeeSetting::EstimateOnly, 1000), FeeOutcome::ReportAndStop(1000));
    assert!(FeeSetting::EstimateOnly.is_estimate_only());
    assert_eq!(resolve_fee(&FeeSetting::Automatic, 1000), FeeOutcome::Resolved(Felt::from_u64(1500)));
    assert!(FeeSetting::Automatic.needs_estimate());
}

#[test]
fn fee_text_in_ether() {
    assert_eq!(fee_in_ether(1), "0.000000000000000001");
    assert_eq!(fee_in_ether(1_500_000_000_000_000_000), "1.500000000000000000");
}

fn request(fee: FeeSetting, salt: Option<&str>, prefix: &str) -> Deploy {
    Deploy {
        not_unique: false,
        fee,
        salt: salt.map(|s| s.to_string()),
        watch: false,
        class_hash: "0xabc".to_string(),
        ctor_args: vec![],
        prefix: prefix.to_string(),
        max_tries: None,
    }
}

fn plan_for(fee: FeeSetting) -> DeployPlan {
    request(fee, None, "04").plan(felt("0x123"), default_udc_address(), vec![]).unwrap()
}

#[test]
fn plan_searches_and_derives() {
    let plan = plan_for(FeeSetting::Automatic);
    assert!(plan.address.padded_hex().starts_with("04"));
    assert_eq!(plan.mode, unique("0x123"));
    assert_eq!(plan.address, derive_address(plan.salt, felt("0xabc"), &unique("0x123"), &vec![]));
}

#[test]
fn plan_with_given_salt() {
    let plan = request(FeeSetting::Automatic, Some("42"), "04")
        .plan(felt("0x123"), default_udc_address(), vec![])
        .unwrap();
    assert_eq!(plan.salt, Felt::from_u64(42));
    assert_eq!(plan.address, derive_address(Felt::from_u64(42), felt("0xabc"), &unique("0x123"), &vec![]));
}

#[test]
fn plan_errors() {
    let mut bad_class = request(FeeSetting::Automatic, None, "0");
    bad_class.class_hash = "0xzz".to_string();
    assert_eq!(
        bad_class.plan(felt("0x123"), udc(), vec![]),
        Err(DeployError::InvalidClassHash(FeltParseError::InvalidCharacter))
    );
    let bad_salt = request(FeeSetting::Automatic, Some("-1"), "0");
    assert_eq!(
        bad_salt.plan(felt("0x123"), udc(), vec![]),
        Err(DeployError::InvalidSalt(FeltParseError::InvalidCharacter))
    );
    let mut capped = request(FeeSetting::Automatic, None, "z");
    capped.max_tries = Some(10);
    assert_eq!(capped.plan(felt("0x123"), udc(), vec![]), Err(DeployError::SearchExhausted));
}

#[test]
fn estimate_only_stops_without_submitting() {
    let plan = plan_for(FeeSetting::EstimateOnly);
    let (stage, action) = step(&plan, Stage::Start, Event::Begin).unwrap();
    assert_eq!((stage, action), (Stage::Estimating, Action::EstimateFee));
    let (stage, action) = step(&plan, stage, Event::FeeEstimated(2_000_000_000_000_000)).unwrap();
    assert_eq!(stage, Stage::Stopped);
    assert_eq!(
        action,
        Action::ReportFee { estimate: 2_000_000_000_000_000, text: "0.002000000000000000".to_string() }
    );
    assert_eq!(step(&plan, stage, Event::Sent(felt("0x1"))), Err(WorkflowError::UnexpectedEvent));
}

#[test]
fn automatic_submits_once_with_buffer() {
    let plan = plan_for(FeeSetting::Automatic);
    let (stage, _) = step(&plan, Stage::Start, Event::Begin).unwrap();
    let (stage, action) = step(&plan, stage, Event::FeeEstimated(1000)).unwrap();
    assert_eq!(stage, Stage::Submitting);
    assert_eq!(action, Action::Submit { max_fee: Felt::from_u64(1500) });
    let tx = felt("0x777");
    let (stage, action) = step(&plan, stage, Event::Sent(tx)).unwrap();
    assert_eq!(stage, Stage::Finished);
    assert_eq!(action, Action::Emit { address: plan.address });
    assert_ne!(tx, plan.address);
}

#[test]
fn manual_fee_skips_estimate() {
    let plan = plan_for(FeeSetting::Manual(felt("0x55")));
    let (stage, action) = step(&plan, Stage::Start, Event::Begin).unwrap();
    assert_eq!(stage, Stage::Submitting);
    assert_eq!(action, Action::Submit { max_fee: felt("0x55") });
}

#[test]
fn watch_waits_for_confirmation() {
    let mut plan = plan_for(FeeSetting::Manual(felt("0x55")));
    plan.watch = true;
    let tx = felt("0x777");
    let (stage, action) = step(&plan, Stage::Submitting, Event::Sent(tx)).unwrap();
    assert_eq!((stage, action), (Stage::Confirming, Action::Watch { tx }));
    let (stage, action) = step(&plan, stage, Event::Confirmed).unwrap();
    assert_eq!((stage, action), (Stage::Finished, Action::Emit { address: plan.address }));
    assert_eq!(step(&plan, Stage::Start, Event::Confirmed), Err(WorkflowError::UnexpectedEvent));
}

#[test]
fn parse_hex_or_decimal() {
    assert_eq!(Felt::parse("0x10").unwrap(), Felt::from_u64(16));
    assert_eq!(Felt::parse("10").unwrap(), Felt::from_u64(10));
    assert_eq!(Felt::parse("0xg"), Err(FeltParseError::InvalidCharacter));
    assert_eq!(Felt::parse("1x"), Err(FeltParseError::InvalidCharacter));
}

#[test]
fn end_to_end_scenario() {
    let estimate_only = plan_for(FeeSetting::EstimateOnly);
    let automatic = plan_for(FeeSetting::Automatic);
    assert_eq!(estimate_only.address, automatic.address);
    assert_eq!(estimate_only.salt, automatic.salt);
    assert_eq!(
        automatic.address,
        derive_address(automatic.salt, felt("0xabc"), &unique("0x123"), &vec![])
    );

    let mut submissions = 0;
    let (mut stage, mut event) = (Stage::Start, Event::FeeEstimated(0));
    let mut first = true;
    loop {
        let ev = if first { Event::Begin } else { event };
        first = false;
        match step(&estimate_only, stage, ev) {
            Ok((next, Action::EstimateFee)) => {
                stage = next;
                event = Event::FeeEstimated(7_000);
            }
            Ok((_, Action::ReportFee { text, .. })) => {
                assert_eq!(text, "0.000000000000007000");
                break;
            }
            Ok((_, Action::Submit { .. })) => submissions += 1,
            other => panic!("unexpected {:?}", other),
        }
    }
    assert_eq!(submissions, 0);

    let (stage, _) = step(&automatic, Stage::Start, Event::Begin).unwrap();
    let (stage, action) = step(&automatic, stage, Event::FeeEstimated(7_000)).unwrap();
    assert_eq!(action, Action::Submit { max_fee: Felt::from_u64(10_500) });
    let tx = felt("0x5eed");
    let (_, action) = step(&automatic, stage, Event::Sent(tx)).unwrap();
    assert_eq!(action, Action::Emit { address: automatic.address });
    assert_ne!(tx, automatic.address);
}

#[test]
fn left_pad_counts_bytes() {
    assert_eq!(left_pad_with_zeros("é", 2), "é");
    assert_eq!(left_pad_with_zeros("é", 3), "0é");
    assert_eq!(left_pad_with_zeros("é", 0), "é");
    assert_eq!(left_pad_with_zeros("aé", 5), "00aé");
}

#[test]
fn fee_text_edges() {
    assert_eq!(fee_in_ether(0), "0.000000000000000000");
    assert_eq!(fee_in_ether(u64::MAX), "18.446744073709551615");
    assert_eq!(fee_in_ether(1_000_000_000_000_000_000), "1.000000000000000000");
}
