use rfesi::builders::EsiBuilder;
use rfesi::client::{Esi, TokenState};
use rfesi::dispatch::{PreparedRequest, RequestType, Verb};
use rfesi::errors::EsiError;
use rfesi::groups::character::{
    Blueprint, CharacterAffiliation, CharacterCorporationHistoryItem, CharacterGroup,
    CharacterPortraitInfo,
};

fn client() -> Esi {
    EsiBuilder::new()
        .client_id("a")
        .client_secret("b")
        .callback_url("c")
        .user_agent("d")
        .build()
        .unwrap()
}

fn public_get(path: &str) -> PreparedRequest {
    PreparedRequest {
        verb: Verb::Get,
        path: path.to_owned(),
        query: Vec::new(),
        headers: Vec::new(),
        body: None,
    }
}

#[test]
fn public_character_endpoints() {
    let esi = client();
    let group = esi.group_character();
    assert_eq!(
        group.get_public_info(90000001, 0),
        Ok(public_get("/latest/characters/90000001/"))
    );
    assert_eq!(
        group.get_history(2112625428, 0),
        Ok(public_get("/latest/characters/2112625428/corporationhistory/"))
    );
    assert_eq!(group.get_portrait(0, 0), Ok(public_get("/latest/characters/0/portrait/")));
}

#[test]
fn public_character_endpoints_ignore_the_tokens() {
    let esi = client().with_tokens(TokenState {
        access_token: Some("secret".to_owned()),
        access_expiration: Some(100),
        refresh_token: None,
    });
    let group = esi.group_character();
    assert_eq!(group.get_public_info(42, 10), Ok(public_get("/latest/characters/42/")));
    assert_eq!(group.get_public_info(42, 1000), Ok(public_get("/latest/characters/42/")));
}

#[test]
fn affiliation_posts_the_ids() {
    let esi = client();
    let group = esi.group_character();
    assert_eq!(
        group.get_affiliation(&[3, 1, 2], 0),
        Ok(PreparedRequest {
            verb: Verb::Post,
            path: "/latest/characters/affiliation/".to_owned(),
            query: Vec::new(),
            headers: vec![("Content-Type".to_owned(), "application/json".to_owned())],
            body: Some(vec![3, 1, 2]),
        })
    );
    assert_eq!(group.get_affiliation(&[], 0).unwrap().body, Some(Vec::new()));
}

#[test]
fn blueprints_need_a_valid_token() {
    let esi = client();
    assert_eq!(
        esi.group_character().get_blueprints(42, 0),
        Err(EsiError::TokenExpiredError)
    );
    let esi = esi.with_tokens(TokenState {
        access_token: Some("secret".to_owned()),
        access_expiration: Some(100),
        refresh_token: None,
    });
    let group = esi.group_character();
    assert_eq!(group.get_blueprints(42, 100), Err(EsiError::TokenExpiredError));
    assert_eq!(
        group.get_blueprints(42, 99),
        Ok(PreparedRequest {
            verb: Verb::Get,
            path: "/latest/characters/42/blueprints/".to_owned(),
            query: Vec::new(),
            headers: vec![("Authorization".to_owned(), "Bearer secret".to_owned())],
            body: None,
        })
    );
}

#[test]
fn descriptors_of_the_character_endpoints() {
    let info = CharacterGroup::public_info_endpoint();
    assert_eq!(info.op_id, "get_characters_character_id");
    assert_eq!(info.template, "/characters/{character_id}/");
    assert_eq!(info.verb, Verb::Get);
    assert_eq!(info.auth, RequestType::Public);
    let history = CharacterGroup::history_endpoint();
    assert_eq!(history.op_id, "get_characters_character_id_corporationhistory");
    assert_eq!(history.auth, RequestType::Public);
    let portrait = CharacterGroup::portrait_endpoint();
    assert_eq!(portrait.op_id, "get_characters_character_id_portrait");
    let affiliation = CharacterGroup::affiliation_endpoint();
    assert_eq!(affiliation.op_id, "post_characters_affiliation");
    assert_eq!(affiliation.verb, Verb::Post);
    assert_eq!(affiliation.auth, RequestType::Public);
    let blueprints = CharacterGroup::blueprints_endpoint();
    assert_eq!(blueprints.op_id, "get_characters_character_id_blueprints");
    assert_eq!(blueprints.auth, RequestType::Authenticated);
    assert_eq!(blueprints.verb, Verb::Get);
}

#[test]
fn character_records_hold_their_fields() {
    let item = CharacterCorporationHistoryItem {
        corporation_id: 1,
        is_deleted: Some(false),
        record_id: 2,
        start_date: "2020-01-01T00:00:00Z".to_owned(),
    };
    assert_eq!(item.clone(), item);
    let portrait = CharacterPortraitInfo {
        px128x128: None,
        px256x256: Some("https://images.example/256".to_owned()),
        px512x512: None,
        px64x64: None,
    };
    assert_eq!(portrait.px256x256.as_deref(), Some("https://images.example/256"));
    let affiliation = CharacterAffiliation {
        alliance_id: None,
        character_id: 3,
        corporation_id: 4,
        faction_id: Some(5),
    };
    assert_eq!(affiliation.faction_id, Some(5));
    let blueprint = Blueprint {
        item_id: 1,
        location_flag: "Hangar".to_owned(),
        location_id: 2,
        material_efficiency: 10,
        quantity: -1,
        runs: -1,
        time_efficiency: 20,
        type_id: 3,
    };
    assert_eq!(blueprint.quantity, -1);
    assert_eq!(blueprint.runs, -1);
}
