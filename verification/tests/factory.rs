use vinifica::events::{
    emit_create_vinifica_vault, emit_new_admin, emit_new_vault_wasm_hash, emit_new_vinifica_fee,
    emit_new_vinifica_receiver, CreatevinificaEvent, FactoryEventData, FactoryEventRecord,
    NewAdminEvent, NewFeeRateEvent, NewVaultWasmHashEvent, NewvinificaReceiverEvent,
};
use vinifica::models::{Address, AssetStrategySet, BytesN32, Strategy, WineLotMetadata};
use vinifica::wine_factory::{
    create_wine_token_contract, derive_salt, WineFactory, WineFactoryError, WineFactoryEvent,
};

fn code_hash(fill: u8) -> BytesN32 {
    BytesN32::from_array([fill; 32])
}

fn lot_metadata(code: &str) -> WineLotMetadata {
    WineLotMetadata {
        lot_id: String::from("LOT-7"),
        winery_name: String::from("Quinta Azul"),
        region: String::from("Alentejo"),
        country: String::from("Portugal"),
        vintage: 2019,
        varietal: String::from("Aragonez"),
        bottle_count: 120,
        description: None,
        token_code: String::from(code),
    }
}

#[test]
fn constructor_stores_admin_and_hash() {
    let admin = Address(1);
    let mut factory = WineFactory::__constructor(admin, code_hash(7), 100).unwrap();
    assert_eq!(factory.admin(100), Ok(admin));
    assert_eq!(factory.total_tokens(100), Ok(0));
    assert_eq!(factory.token_wasm_hash(100), Ok(code_hash(7)));
}

#[test]
fn three_deployments_index_densely() {
    let admin = Address(1);
    let mut factory = WineFactory::__constructor(admin, code_hash(9), 10).unwrap();
    let first = Address(101);
    let second = Address(102);
    let third = Address(103);
    assert_eq!(factory.create_wine_token(first, 10), Ok(first));
    assert_eq!(factory.create_wine_token(second, 10), Ok(second));
    assert_eq!(factory.create_wine_token(third, 10), Ok(third));
    assert_eq!(factory.total_tokens(10), Ok(3));
    assert_eq!(
        factory.get_token_by_index(3, 10),
        Err(WineFactoryError::TokenNotFound)
    );
    assert_eq!(factory.get_token_by_index(2, 10), Ok(third));
    assert_eq!(factory.get_token_by_index(0, 10), Ok(first));
}

#[test]
fn salt_is_the_counter_big_endian() {
    let mut expected = vec![0u8; 32];
    assert_eq!(derive_salt(0), expected);
    expected[31] = 1;
    assert_eq!(derive_salt(1), expected);
    let salt = derive_salt(0x0102_0304);
    assert_eq!(&salt[28..], &[1, 2, 3, 4]);
    assert_eq!(&salt[..28], &[0u8; 28]);
    assert_eq!(derive_salt(258)[28..], [0, 0, 1, 2]);
}

#[test]
fn deployment_request_reflects_the_registry() {
    let admin = Address(1);
    let token_admin = Address(2);
    let mut factory = WineFactory::__constructor(admin, code_hash(3), 10).unwrap();
    factory.create_wine_token(Address(50), 10).unwrap();
    let request = factory
        .deployment_request(
            token_admin,
            6,
            String::from("Quinta"),
            String::from("QNT"),
            lot_metadata("QAZ"),
        )
        .unwrap();
    assert_eq!(request.token_wasm_hash, code_hash(3));
    assert_eq!(request.salt, derive_salt(1));
    assert_eq!(request.admin, token_admin);
    assert_eq!(request.decimal, 6);
    assert_eq!(request.name, "Quinta");
    assert_eq!(request.symbol, "QNT");
    assert_eq!(request.wine_lot_metadata, lot_metadata("QAZ"));
}

#[test]
fn request_assembly_passes_arguments_through() {
    let request = create_wine_token_contract(
        &code_hash(8),
        5,
        Address(4),
        2,
        String::from("Lot"),
        String::from("LOT"),
        lot_metadata("LTC"),
    );
    assert_eq!(request.token_wasm_hash, code_hash(8));
    assert_eq!(request.salt, derive_salt(5));
    assert_eq!(request.wine_lot_metadata, lot_metadata("LTC"));
}

#[test]
fn admin_handover_and_hash_rotation() {
    let admin = Address(1);
    let new_admin = Address(2);
    let mut factory = WineFactory::__constructor(admin, code_hash(1), 20).unwrap();
    assert_eq!(factory.set_admin(admin, new_admin, 20), Ok(()));
    assert_eq!(factory.admin(20), Ok(new_admin));
    assert_eq!(factory.set_token_wasm_hash(new_admin, code_hash(2), 20), Ok(()));
    assert_eq!(factory.token_wasm_hash(20), Ok(code_hash(2)));
    let events = factory.events();
    assert_eq!(events.len(), 2);
    assert_eq!(events[0], WineFactoryEvent::SetAdmin { new_admin });
    assert_eq!(
        events[1],
        WineFactoryEvent::SetTokenWasmHash { new_token_wasm_hash: code_hash(2) }
    );
}

#[test]
fn creation_event_carries_the_new_address() {
    let admin = Address(1);
    let mut factory = WineFactory::__constructor(admin, code_hash(1), 30).unwrap();
    factory.create_wine_token(Address(77), 30).unwrap();
    assert_eq!(
        factory.events()[0],
        WineFactoryEvent::CreateWineToken { token_address: Address(77) }
    );
}

#[test]
fn new_vinifica_fee() {
    let mut log: Vec<FactoryEventRecord> = Vec::new();
    let vinifica_fee = 100u32;
    emit_new_vinifica_fee(&mut log, vinifica_fee);

    let event = log.last().unwrap();
    let expected_val = NewFeeRateEvent { new_vinifica_fee: vinifica_fee };

    assert_eq!(event.symbol, "n_fee");
    assert_eq!(event.emitter, "vinificaFactory");
    assert_eq!(event.data, FactoryEventData::NewFee(expected_val));
}

#[test]
fn vault_factory_event_stream() {
    let mut log: Vec<FactoryEventRecord> = Vec::new();
    let strategies = vec![Strategy {
        address: Address(8),
        name: String::from("hold"),
        paused: false,
    }];
    let assets = vec![AssetStrategySet { address: Address(9), strategies }];
    emit_create_vinifica_vault(&mut log, vec![(0u32, Address(5))], 200, assets);
    emit_new_admin(&mut log, Address(6));
    emit_new_vinifica_receiver(&mut log, Address(7));
    emit_new_vault_wasm_hash(&mut log, code_hash(4));
    assert_eq!(log.len(), 4);
    assert_eq!(log[0].symbol, "create");
    match &log[0].data {
        FactoryEventData::Create(CreatevinificaEvent { roles, vault_fee, assets }) => {
            assert_eq!(roles, &vec![(0u32, Address(5))]);
            assert_eq!(*vault_fee, 200);
            assert_eq!(assets.len(), 1);
            assert_eq!(assets[0].strategies[0].name, "hold");
        }
        _ => panic!("wrong payload"),
    }
    assert_eq!(log[1].symbol, "nadmin");
    assert_eq!(
        log[1].data,
        FactoryEventData::NewAdmin(NewAdminEvent { new_admin: Address(6) })
    );
    assert_eq!(log[2].symbol, "nreceiver");
    assert_eq!(
        log[2].data,
        FactoryEventData::NewReceiver(NewvinificaReceiverEvent {
            new_vinifica_receiver: Address(7)
        })
    );
    assert_eq!(log[3].symbol, "n_wasm");
    assert_eq!(
        log[3].data,
        FactoryEventData::NewWasmHash(NewVaultWasmHashEvent {
            new_vault_wasm_hash: code_hash(4)
        })
    );
    assert!(log.iter().all(|r| r.emitter == "vinificaFactory"));
}
