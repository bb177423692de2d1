use cp_config::error::{ConfigError, Error};
use cp_config::error_kind::{CHANNEL_COMMUNICATION_FAILURE, UNEXPECTED_RESPONSE_TYPE};
use cp_config::models::config_supplier::SupplierAction;
use cp_config::models::config_supplier_init::ConfigSupplierInit;
use cp_config::models::config_supply_chain::{
    ConfigSupplyChain, Exchange, Route, CHANNEL_CAPACITY,
};
use cp_config::models::config_supply_request::ConfigSupplyRequest;
use cp_config::models::config_supply_response::ConfigSupplyResponse;

const TEST_STAGE: &str = "dummy";

fn environments() -> Vec<String> {
    vec![
        "dummy".to_string(),
        "development".to_string(),
        "staging".to_string(),
        "production".to_string(),
    ]
}

fn supply_chain(suppliers_count: usize, static_stages: &[&str]) -> ConfigSupplyChain {
    ConfigSupplyChain::try_new(
        suppliers_count,
        static_stages.iter().map(|stage| stage.to_string()).collect(),
        ConfigSupplierInit { environments: environments(), extension: "zip".to_string() },
    )
    .unwrap()
}

/// A pool as its channel sees it: one receiver for the supply chain, one for each
/// supplier attached.
struct Pool {
    receiver_count: usize,
}

impl Pool {
    fn new() -> Self {
        Pool { receiver_count: 1 }
    }

    fn top_up(&mut self, supply_chain: &ConfigSupplyChain) {
        for _ in 0..supply_chain.suppliers_to_add(self.receiver_count) {
            let supplier = supply_chain.add_supplier();
            assert!(supplier.is_idle());
            self.receiver_count += 1;
        }
    }
}

#[test]
fn try_new_creates_specified_config_suppliers() {
    let expected_suppliers: usize = 2usize;
    let supply_chain = supply_chain(expected_suppliers, &["main"]);
    let mut dynamic_pool = Pool::new();

    dynamic_pool.top_up(&supply_chain);

    // + 1 in order to include the receiver held within the supply chain.
    assert_eq!(expected_suppliers + 1, dynamic_pool.receiver_count);
}

#[test]
fn get_config_replies_with_expected_bytes() {
    let expected_bytes: Vec<u8> = vec![];
    let supply_chain = supply_chain(2usize, &["main"]);

    assert_eq!(Route::Dynamic, supply_chain.route(TEST_STAGE));
    let config = supply_chain
        .get_config(Exchange::Answered {
            response: ConfigSupplyResponse::GetConfig { result: Ok(vec![]) },
        })
        .unwrap();

    assert_eq!(expected_bytes, config);
}

#[test]
fn get_config_initializes_new_suppliers() {
    let suppliers_count: usize = 2usize;
    let expected_suppliers: usize = 4usize;
    let mut supply_chain = supply_chain(suppliers_count, &["main"]);
    let mut dynamic_pool = Pool::new();
    dynamic_pool.top_up(&supply_chain);
    supply_chain.set_suppliers_count(expected_suppliers);

    assert_eq!(Route::Dynamic, supply_chain.route(TEST_STAGE));
    assert_eq!(2, supply_chain.suppliers_to_add(dynamic_pool.receiver_count));
    dynamic_pool.top_up(&supply_chain);

    // + 1 in order to include the receiver held within the supply chain.
    assert_eq!(expected_suppliers + 1, dynamic_pool.receiver_count);
}

#[test]
fn a_pool_that_lost_suppliers_is_topped_up_to_the_target() {
    let supply_chain = supply_chain(3, &[]);
    let mut pool = Pool::new();
    pool.top_up(&supply_chain);
    assert_eq!(4, pool.receiver_count);

    pool.receiver_count -= 2;
    assert_eq!(2, supply_chain.suppliers_to_add(pool.receiver_count));
    pool.top_up(&supply_chain);

    assert_eq!(4, pool.receiver_count);
    assert_eq!(0, supply_chain.suppliers_to_add(pool.receiver_count));
}

#[test]
fn a_pool_is_never_shrunk() {
    let supply_chain = supply_chain(2, &[]);

    assert_eq!(2, supply_chain.suppliers_to_add(1));
    assert_eq!(1, supply_chain.suppliers_to_add(2));
    assert_eq!(0, supply_chain.suppliers_to_add(3));
    assert_eq!(0, supply_chain.suppliers_to_add(4));
    assert_eq!(0, supply_chain.suppliers_to_add(usize::MAX));
}

#[test]
fn a_channel_without_receivers_has_no_suppliers() {
    let supply_chain = supply_chain(2, &[]);

    assert_eq!(2, supply_chain.suppliers_to_add(0));
}

#[test]
fn a_supply_chain_that_wants_no_suppliers_adds_none() {
    let supply_chain = supply_chain(0, &["main"]);

    assert_eq!(0, supply_chain.suppliers_count());
    assert_eq!(0, supply_chain.suppliers_to_add(1));
    assert_eq!(0, supply_chain.suppliers_to_add(0));
}

#[test]
fn the_largest_target_is_reached_without_overflow() {
    let supply_chain = supply_chain(usize::MAX, &[]);

    assert_eq!(usize::MAX, supply_chain.suppliers_to_add(1));
    assert_eq!(usize::MAX - 1, supply_chain.suppliers_to_add(2));
    assert_eq!(1, supply_chain.suppliers_to_add(usize::MAX));
}

#[test]
fn a_static_stage_goes_to_its_own_pool() {
    let supply_chain = supply_chain(2, &["main", "production"]);

    assert_eq!(Route::Static(0), supply_chain.route("main"));
    assert_eq!(Route::Static(1), supply_chain.route("production"));
    assert_eq!(Route::Static(0), supply_chain.route("main"));
}

#[test]
fn any_other_stage_goes_to_the_dynamic_pool() {
    let supply_chain = supply_chain(2, &["main", "production"]);

    assert_eq!(Route::Dynamic, supply_chain.route("feature/login"));
    assert_eq!(Route::Dynamic, supply_chain.route("Main"));
    assert_eq!(Route::Dynamic, supply_chain.route("main "));
    assert_eq!(Route::Dynamic, supply_chain.route(""));
}

#[test]
fn without_static_stages_every_stage_is_dynamic() {
    let supply_chain = supply_chain(1, &[]);

    assert!(supply_chain.static_stages().is_empty());
    assert_eq!(Route::Dynamic, supply_chain.route("main"));
}

#[test]
fn a_static_stage_named_twice_has_one_pool() {
    let supply_chain = supply_chain(2, &["main", "production", "main", "staging", "production"]);

    assert_eq!(
        &vec!["main".to_string(), "production".to_string(), "staging".to_string()],
        supply_chain.static_stages()
    );
    assert_eq!(Route::Static(2), supply_chain.route("staging"));
}

#[test]
fn the_channels_hold_a_thousand_and_twenty_four_requests() {
    assert_eq!(1024, CHANNEL_CAPACITY);
}

#[test]
fn every_new_supplier_gets_a_directory_of_its_own() {
    let supply_chain = supply_chain(2, &["main"]);

    let first = supply_chain.add_supplier();
    let second = supply_chain.add_supplier();

    assert_ne!(first.working_path(), second.working_path());
    for supplier in [&first, &second] {
        let name = supplier.working_path();
        assert_eq!(36, name.len());
        for (at, character) in name.chars().enumerate() {
            if at == 8 || at == 13 || at == 18 || at == 23 {
                assert_eq!('-', character);
            } else {
                assert!(character.is_ascii_digit() || ('a'..='f').contains(&character));
            }
        }
        assert_eq!(None, supplier.last_stage());
    }
}

#[test]
fn a_new_supplier_builds_the_environments_of_the_supply_chain() {
    let supply_chain = supply_chain(1, &[]);
    let mut supplier = supply_chain.add_supplier();

    supplier.accept("main", "dummy", "dummy");
    supplier.resume(cp_config::models::config_supplier::Outcome::Done);
    supplier.resume(cp_config::models::config_supplier::Outcome::Done);
    let mut built: Vec<String> = Vec::new();
    let mut action = supplier.resume(cp_config::models::config_supplier::Outcome::Done);
    while let SupplierAction::Build { environment, .. } = action {
        built.push(environment);
        action = supplier.resume(cp_config::models::config_supplier::Outcome::Done);
    }

    assert_eq!(environments(), built);
}

#[test]
fn a_request_that_cannot_be_sent_is_a_failure_of_the_channel() {
    let supply_chain = supply_chain(1, &[]);

    let result = supply_chain
        .get_config(Exchange::Unsent { cause: "sending into a closed channel".to_string() });

    assert_eq!(
        Err(Error::new(
            CHANNEL_COMMUNICATION_FAILURE.to_string(),
            "failed to send request: sending into a closed channel".to_string(),
        )),
        result
    );
    assert_eq!(Err(ConfigError::from_send("sending into a closed channel").0), result);
}

#[test]
fn an_answer_that_never_comes_is_a_failure_of_the_channel() {
    let supply_chain = supply_chain(1, &[]);

    let result = supply_chain.get_config(Exchange::Unanswered { cause: "channel closed".to_string() });

    assert_eq!(
        Err(Error::new(
            CHANNEL_COMMUNICATION_FAILURE.to_string(),
            "failed to receive value: channel closed".to_string(),
        )),
        result
    );
    assert_eq!(Err(ConfigError::from_receive("channel closed").0), result);
}

#[test]
fn a_suppliers_failure_is_handed_on_as_it_is() {
    let supply_chain = supply_chain(1, &[]);
    let failure = Error::new("not_found".to_string(), "component 'x' does not exist".to_string());

    let result = supply_chain.get_config(Exchange::Answered {
        response: ConfigSupplyResponse::GetConfig { result: Err(failure.clone()) },
    });

    assert_eq!(Err(failure), result);
}

#[test]
fn an_answer_to_another_request_is_unexpected() {
    let supply_chain = supply_chain(1, &[]);

    let result = supply_chain
        .get_config(Exchange::Answered { response: ConfigSupplyResponse::Update { result: Ok(()) } });

    let error = result.expect_err("an update is no configuration");
    assert_eq!(UNEXPECTED_RESPONSE_TYPE, error.error_kind());
    assert_eq!(
        "received an unexpected response type for get config request: Update",
        error.message()
    );
}

#[test]
fn a_response_carries_its_result() {
    assert_eq!(
        Ok(vec![1, 2, 3]),
        ConfigSupplyResponse::GetConfig { result: Ok(vec![1, 2, 3]) }.into_config()
    );
    assert!(ConfigSupplyResponse::Update { result: Ok(()) }.into_config().is_err());
}

#[test]
fn a_request_carries_its_replier() {
    let (replier, answers) = std::sync::mpsc::channel::<ConfigSupplyResponse>();
    let request = ConfigSupplyRequest::GetConfig {
        stage: "main".to_string(),
        environment: "dummy".to_string(),
        component: "web".to_string(),
        replier,
    };

    match request {
        ConfigSupplyRequest::GetConfig { stage, environment, component, replier } => {
            assert_eq!(("main", "dummy", "web"), (stage.as_str(), environment.as_str(), component.as_str()));
            replier.send(ConfigSupplyResponse::GetConfig { result: Ok(vec![7]) }).unwrap();
        }
    }
    assert_eq!(ConfigSupplyResponse::GetConfig { result: Ok(vec![7]) }, answers.recv().unwrap());
}
