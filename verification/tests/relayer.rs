use most::config::{get_env_var, parse_decimal, Config, Load, Variables};
use most::error::MostError;
use most::handler::{
    AzeroContractError, CircuitBreakerEvent, CrosschainTransferRequestFilter, EthHandler,
    EthHandlerError, MostEvents, Reaction, RetryPolicy, Step, TaskEnd,
};
use most::logs::{decode_transfer_request, word_to_u128, LogError};
use most::watcher::{EventsBatch, Watcher};

fn some(text: &str) -> Option<String> {
    Some(String::from(text))
}

#[test]
fn config_takes_defaults_for_unset_variables() {
    let vars = Variables { eth_contract_address: some("0xabc"), ..Variables::default() };
    let config = Config::load(vars.clone());
    assert_eq!(config.log_level, "info");
    assert_eq!(config.eth_node_wss_url, "ws://127.0.0.1:8546");
    assert_eq!(config.azero_node_wss_url, "ws://127.0.0.1:9944");
    assert_eq!(config.azero_sudo_seed, "//Alice");
    assert_eq!(config.eth_contract_address, "0xabc");
    assert_eq!(config.eth_from_block, 0);
    assert!(Config::try_load(vars).is_some());
}

#[test]
fn config_takes_the_variables_that_are_set() {
    let vars = Variables {
        log_level: some("debug"),
        eth_wss_url: some("ws://eth"),
        azero_wss_url: some("ws://azero"),
        azero_sudo_seed: some("//Bob"),
        eth_contract_address: some("0xdef"),
        eth_from_block: some("16232696"),
    };
    let config = Config::try_load(vars).unwrap();
    assert_eq!(config.log_level, "debug");
    assert_eq!(config.eth_node_wss_url, "ws://eth");
    assert_eq!(config.azero_node_wss_url, "ws://azero");
    assert_eq!(config.azero_sudo_seed, "//Bob");
    assert_eq!(config.eth_contract_address, "0xdef");
    assert_eq!(config.eth_from_block, 16232696);
}

#[test]
fn config_needs_the_contract_address_and_a_block_number() {
    assert!(Config::try_load(Variables::default()).is_none());
    let vars = Variables {
        eth_contract_address: some("0xabc"),
        eth_from_block: some("twelve"),
        ..Variables::default()
    };
    assert!(Config::try_load(vars).is_none());
    let vars = Variables {
        eth_contract_address: some("0xabc"),
        eth_from_block: some(""),
        ..Variables::default()
    };
    assert!(Config::try_load(vars).is_none());
}

#[test]
fn decimal_numbers_are_read_as_the_machine_reads_them() {
    let max = usize::MAX.to_string();
    let over = format!("{}0", max);
    let texts = [
        "0", "7", "42", "007", "+5", "+0", "16232696", "", "+", "-", "-5", "++5", "5+", " 5", "5 ",
        "1_000", "0x10", "12a", "٣", "1.5", &max, &over, "18446744073709551616",
        "99999999999999999999999999999999999999",
    ];
    for text in texts {
        assert_eq!(parse_decimal(text), text.parse::<usize>().ok(), "{:?}", text);
    }
    assert_eq!(parse_decimal("42"), Some(42));
    assert_eq!(parse_decimal("+42"), Some(42));
    assert_eq!(parse_decimal(&max), Some(usize::MAX));
    assert_eq!(parse_decimal(&over), None);
}

#[test]
fn variable_falls_back_to_its_default() {
    assert_eq!(get_env_var(some("x"), Some("y")), "x");
    assert_eq!(get_env_var(None, Some("y")), "y");
    assert_eq!(get_env_var(some("x"), None), "x");
    assert_eq!(get_env_var(some(""), Some("y")), "");
}

fn transport() -> AzeroContractError {
    AzeroContractError::Transport(String::from("connection reset"))
}

const POLICY: RetryPolicy = RetryPolicy { max_attempts: 4, base_delay_ms: 250 };

#[test]
fn accepted_vote_is_handled() {
    assert_eq!(EthHandler::next_step(Ok(()), 0, &POLICY), Step::Handled);
    assert_eq!(EthHandler::next_step(Ok(()), 3, &POLICY), Step::Handled);
    assert_eq!(EthHandler::next_step(Ok(()), u32::MAX, &POLICY), Step::Handled);
}

#[test]
fn transient_failure_is_retried_with_doubling_pauses() {
    assert_eq!(
        EthHandler::next_step(Err(transport()), 0, &POLICY),
        Step::Retry { delay_ms: 250 }
    );
    assert_eq!(
        EthHandler::next_step(Err(transport()), 1, &POLICY),
        Step::Retry { delay_ms: 500 }
    );
    assert_eq!(
        EthHandler::next_step(Err(transport()), 2, &POLICY),
        Step::Retry { delay_ms: 1000 }
    );
    assert_eq!(
        EthHandler::next_step(Err(transport()), 3, &POLICY),
        Step::Surface(EthHandlerError::AzeroContract(transport()))
    );
    assert_eq!(
        EthHandler::next_step(Err(transport()), u32::MAX, &POLICY),
        Step::Surface(EthHandlerError::AzeroContract(transport()))
    );
    let halted = AzeroContractError::Refused(MostError::IsHalted);
    assert_eq!(
        EthHandler::next_step(Err(halted), 0, &POLICY),
        Step::Retry { delay_ms: 250 }
    );
    let never = RetryPolicy { max_attempts: 0, base_delay_ms: 250 };
    assert_eq!(
        EthHandler::next_step(Err(transport()), 0, &never),
        Step::Surface(EthHandlerError::AzeroContract(transport()))
    );
    let once = RetryPolicy { max_attempts: 1, base_delay_ms: 250 };
    assert_eq!(
        EthHandler::next_step(Err(transport()), 0, &once),
        Step::Surface(EthHandlerError::AzeroContract(transport()))
    );
}

#[test]
fn permanent_failure_breaks_the_circuit() {
    for refusal in [MostError::HashDoesNotMatchData, MostError::NotInCommittee] {
        for attempt in [0, 1, 3, 100] {
            assert_eq!(
                EthHandler::next_step(
                    Err(AzeroContractError::Refused(refusal.clone())),
                    attempt,
                    &POLICY
                ),
                Step::Break(CircuitBreakerEvent::Fatal)
            );
        }
    }
    assert_ne!(CircuitBreakerEvent::Fatal, CircuitBreakerEvent::Transient);
    assert_ne!(EthHandlerError::Send(1), EthHandlerError::Send(2));
}

#[test]
fn supervisor_restarts_unless_the_signal_is_fatal() {
    assert_eq!(CircuitBreakerEvent::Fatal.reaction(5000), Reaction::Exit);
    assert_eq!(
        CircuitBreakerEvent::Transient.reaction(5000),
        Reaction::Restart { cooldown_ms: 5000 }
    );
    assert_eq!(CircuitBreakerEvent::Transient.reaction(0), Reaction::Restart { cooldown_ms: 0 });
}

#[test]
fn task_end_tells_the_signal() {
    assert_eq!(TaskEnd::Finished.signal(), CircuitBreakerEvent::Transient);
    assert_eq!(TaskEnd::Failed.signal(), CircuitBreakerEvent::Transient);
    assert_eq!(
        TaskEnd::Broken(CircuitBreakerEvent::Transient).signal(),
        CircuitBreakerEvent::Transient
    );
    assert_eq!(TaskEnd::Broken(CircuitBreakerEvent::Fatal).signal(), CircuitBreakerEvent::Fatal);
    assert_eq!(TaskEnd::Broken(CircuitBreakerEvent::Fatal).signal().reaction(1), Reaction::Exit);
}

fn word(value: u128) -> [u8; 32] {
    let mut word = [0u8; 32];
    word[16..].copy_from_slice(&value.to_be_bytes());
    word
}

#[test]
fn words_are_read_most_significant_byte_first() {
    assert_eq!(word_to_u128(&[0; 32]), Some(0));
    assert_eq!(word_to_u128(&word(1)), Some(1));
    assert_eq!(word_to_u128(&word(0x0102)), Some(258));
    assert_eq!(word_to_u128(&word(u128::MAX)), Some(u128::MAX));
    let mut large = word(0);
    large[15] = 1;
    assert_eq!(word_to_u128(&large), None);
    assert_eq!(word_to_u128(&[255; 32]), None);
    let mut largest = [0u8; 32];
    largest[0] = 128;
    assert_eq!(word_to_u128(&largest), None);
    let mut counting = [0u8; 32];
    for (i, byte) in counting.iter_mut().enumerate().skip(16) {
        *byte = i as u8;
    }
    assert_eq!(word_to_u128(&counting), Some(0x101112131415161718191a1b1c1d1e1f));
}

#[test]
fn transfer_request_is_read_out_of_a_log() {
    let topics = vec![[0xee; 32], word(3), [0x11; 32], [0x22; 32]];
    let mut data = word(100).to_vec();
    data.extend_from_slice(&word(7));
    assert_eq!(
        decode_transfer_request(&topics, &data),
        Ok(MostEvents::CrosschainTransferRequestFilter(CrosschainTransferRequestFilter {
            committee_id: 3,
            dest_token_address: [0x11; 32],
            amount: 100,
            dest_receiver_address: [0x22; 32],
            request_nonce: 7,
        }))
    );
}

#[test]
fn log_that_is_no_transfer_request_is_refused() {
    let topics = vec![[0xee; 32], word(3), [0x11; 32], [0x22; 32]];
    let mut data = word(100).to_vec();
    data.extend_from_slice(&word(7));
    assert_eq!(decode_transfer_request(&topics[..3].to_vec(), &data), Err(LogError::Malformed));
    assert_eq!(decode_transfer_request(&Vec::new(), &data), Err(LogError::Malformed));
    assert_eq!(decode_transfer_request(&topics, &data[..63].to_vec()), Err(LogError::Malformed));
    assert_eq!(decode_transfer_request(&topics, &Vec::new()), Err(LogError::Malformed));
    let mut longer = data.clone();
    longer.push(0);
    assert_eq!(decode_transfer_request(&topics, &longer), Err(LogError::Malformed));
    let mut five = topics.clone();
    five.push([0; 32]);
    assert_eq!(decode_transfer_request(&five, &data), Err(LogError::Malformed));

    let mut large = data.clone();
    large[0] = 1;
    assert_eq!(decode_transfer_request(&topics, &large), Err(LogError::TooLarge));
    let mut large = data.clone();
    large[47] = 1;
    assert_eq!(decode_transfer_request(&topics, &large), Err(LogError::TooLarge));
    let mut large = topics.clone();
    large[1][15] = 1;
    assert_eq!(decode_transfer_request(&large, &data), Err(LogError::TooLarge));
    // the malformed log is told before the large number
    assert_eq!(decode_transfer_request(&large, &longer), Err(LogError::Malformed));
}

#[test]
fn backoff_doubles_until_it_cannot() {
    assert_eq!(EthHandler::backoff(250, 0), 250);
    assert_eq!(EthHandler::backoff(250, 1), 500);
    assert_eq!(EthHandler::backoff(250, 10), 256000);
    assert_eq!(EthHandler::backoff(0, 40), 0);
    assert_eq!(EthHandler::backoff(1, 63), 1 << 63);
    assert_eq!(EthHandler::backoff(1, 64), u64::MAX);
    assert_eq!(EthHandler::backoff(3, 63), u64::MAX);
    assert_eq!(EthHandler::backoff(u64::MAX, 1), u64::MAX);
    assert_eq!(EthHandler::backoff(250, 1000), u64::MAX);
}

fn event(tag: u8) -> MostEvents {
    MostEvents::RequestSignedFilter { request_hash: [tag; 32] }
}

#[test]
fn watcher_hands_out_one_batch_per_block() {
    let mut watcher = Watcher::new(10);
    assert_eq!(watcher.subscribe_from(), 10);
    assert_eq!(watcher.observe(10, event(1)), None);
    assert_eq!(watcher.observe(10, event(2)), None);
    assert_eq!(
        watcher.observe(12, event(3)),
        Some(EventsBatch { block: 10, events: vec![event(1), event(2)] })
    );
    assert_eq!(watcher.observe(12, event(4)), None);
    assert_eq!(
        watcher.close_block(),
        Some(EventsBatch { block: 12, events: vec![event(3), event(4)] })
    );
    assert_eq!(watcher.close_block(), None);
    // nothing was acknowledged yet
    assert_eq!(watcher.subscribe_from(), 10);
}

#[test]
fn watcher_moves_its_cursor_on_acknowledgement_only() {
    let mut watcher = Watcher::new(10);
    watcher.observe(10, event(1));
    let batch = watcher.close_block().unwrap();
    assert_eq!(watcher.subscribe_from(), 10);
    watcher.restart();
    assert_eq!(watcher.subscribe_from(), 10);
    watcher.acknowledge(batch.block);
    assert_eq!(watcher.subscribe_from(), 11);
    // the cursor never moves backwards
    watcher.acknowledge(5);
    assert_eq!(watcher.subscribe_from(), 11);
    watcher.acknowledge(10);
    assert_eq!(watcher.subscribe_from(), 11);
    watcher.acknowledge(20);
    assert_eq!(watcher.subscribe_from(), 21);
    watcher.acknowledge(u64::MAX);
    assert_eq!(watcher.subscribe_from(), 21);
}

#[test]
fn watcher_resumes_at_the_stored_cursor() {
    assert_eq!(Watcher::resume(10, None).subscribe_from(), 10);
    assert_eq!(Watcher::resume(10, Some(25)).subscribe_from(), 25);
    assert_eq!(Watcher::resume(10, Some(3)).subscribe_from(), 3);
    let mut watcher = Watcher::resume(10, Some(25));
    assert_eq!(watcher.observe(24, event(1)), None);
    assert_eq!(watcher.close_block(), None);
    assert_eq!(watcher.observe(25, event(2)), None);
    assert_eq!(watcher.close_block(), Some(EventsBatch { block: 25, events: vec![event(2)] }));
}

#[test]
fn watcher_drops_events_of_acknowledged_blocks() {
    let mut watcher = Watcher::new(0);
    watcher.acknowledge(10);
    assert_eq!(watcher.observe(10, event(1)), None);
    assert_eq!(watcher.observe(3, event(2)), None);
    assert_eq!(watcher.close_block(), None);
    assert_eq!(watcher.observe(11, event(3)), None);
    // an acknowledgement that overtakes the open block closes it
    watcher.acknowledge(11);
    assert_eq!(watcher.close_block(), None);
    assert_eq!(watcher.observe(12, event(4)), None);
    watcher.restart();
    assert_eq!(watcher.close_block(), None);
    assert_eq!(watcher.subscribe_from(), 12);
}
