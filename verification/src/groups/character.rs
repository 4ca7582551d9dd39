//! Endpoints for Character

use crate::client::Esi;
use crate::dispatch::{
    args_of, free_of, lemma_render_one_placeholder, lemma_render_plain, lookup, prepared, render,
    request_of, ArgModel, EndpointDescriptor, PathArg, PreparedRequest, RequestModel, RequestType,
    Verb,
};
use crate::errors::EsiError;
use crate::text::decimal;
use vstd::prelude::*;
use vstd::slice::slice_to_vec;
use vstd::string::*;

verus! {

/// Endpoints for Character
#[derive(Debug)]
pub struct CharacterGroup<'a> {
    pub(crate) esi: &'a Esi,
}

#[derive(Clone, Debug, PartialEq, Eq)]
#[allow(missing_docs)]
pub struct CharacterCorporationHistoryItem {
    pub corporation_id: u64,
    pub is_deleted: Option<bool>,
    pub record_id: u64,
    pub start_date: String,
}

#[derive(Clone, Debug, PartialEq, Eq)]
#[allow(missing_docs)]
pub struct CharacterPortraitInfo {
    pub px128x128: Option<String>,
    pub px256x256: Option<String>,
    pub px512x512: Option<String>,
    pub px64x64: Option<String>,
}

#[derive(Clone, Debug, PartialEq, Eq)]
#[allow(missing_docs)]
pub struct CharacterAffiliation {
    pub alliance_id: Option<u64>,
    pub character_id: u64,
    pub corporation_id: u64,
    pub faction_id: Option<u64>,
}

#[derive(Clone, Debug, PartialEq, Eq)]
#[allow(missing_docs)]
pub struct Blueprint {
    pub item_id: u64,
    pub location_flag: String,
    pub location_id: u64,
    pub material_efficiency: u8,
    pub quantity: i32,
    pub runs: i64,
    pub time_efficiency: u8,
    pub type_id: u64,
}

/// The path of an endpoint of one character: the version, `/characters/`,
/// the character's id in decimal, and what follows it.
pub open spec fn character_path(version: Seq<char>, character_id: u64, tail: Seq<char>) -> Seq<
    char,
> {
    seq!['/'] + version + "/characters/"@ + decimal(character_id as nat) + tail
}

/// The request of a public GET on an endpoint of one character.
pub open spec fn public_get(path: Seq<char>) -> RequestModel {
    RequestModel {
        verb: Verb::Get,
        path,
        query: Seq::empty(),
        headers: Seq::empty(),
        body: None,
    }
}

/// The one argument of an endpoint of one character.
pub open spec fn character_args(character_id: u64) -> Seq<ArgModel> {
    seq![ArgModel { name: "character_id"@, value: decimal(character_id as nat) }]
}

/// A template of the form `/characters/{character_id}` and a tail without
/// braces stands for `/characters/`, the id and the tail.
proof fn lemma_character_template(template: Seq<char>, tail: Seq<char>, character_id: u64)
    requires
        template == "/characters/{character_id}"@ + tail,
        free_of(tail, '{'),
    ensures
        render(template, character_args(character_id)) == "/characters/"@ + decimal(
            character_id as nat,
        ) + tail,
{
    reveal_strlit("/characters/{character_id}");
    reveal_strlit("/characters/");
    reveal_strlit("character_id");
    let args = character_args(character_id);
    assert(lookup(args, "character_id"@) == Some(decimal(character_id as nat)));
    assert(template =~= "/characters/"@ + seq!['{'] + "character_id"@ + seq!['}'] + tail);
    lemma_render_one_placeholder("/characters/"@, "character_id"@, tail, args);
}

impl Esi {
    /// The endpoints for characters.
    pub fn group_character(&self) -> (group: CharacterGroup<'_>)
        ensures
            group.client() == self,
    {
        CharacterGroup { esi: self }
    }
}

impl<'a> CharacterGroup<'a> {
    /// The client on whose behalf the group prepares its requests.
    pub closed spec fn client(&self) -> &Esi {
        self.esi
    }

    /// The public information of a character.
    pub fn public_info_endpoint() -> (r: EndpointDescriptor)
        ensures
            r == (EndpointDescriptor {
                op_id: "get_characters_character_id",
                verb: Verb::Get,
                template: "/characters/{character_id}/",
                auth: RequestType::Public,
            }),
    {
        EndpointDescriptor {
            op_id: "get_characters_character_id",
            verb: Verb::Get,
            template: "/characters/{character_id}/",
            auth: RequestType::Public,
        }
    }

    /// Prepares a call of an endpoint of one character.
    fn call(&self, endpoint: &EndpointDescriptor, character_id: u64, now: u64) -> (r: Result<
        PreparedRequest,
        EsiError,
    >)
        ensures
            request_of(r) == prepared(
                self.client().config@.version,
                self.client().tokens@,
                *endpoint,
                character_args(character_id),
                Seq::empty(),
                None,
                now,
            ),
    {
        let mut args: Vec<PathArg> = Vec::new();
        args.push(PathArg::integer("character_id", character_id));
        assert(args_of(args@) =~= character_args(character_id));
        let query: Vec<(String, String)> = Vec::new();
        assert(query.deep_view() =~= Seq::empty());
        self.esi.prepare(endpoint, &args, query, None, now)
    }

    /// Get a character's public information.
    pub fn get_public_info(&self, character_id: u64, now: u64) -> (r: Result<
        PreparedRequest,
        EsiError,
    >)
        ensures
            request_of(r) == Ok::<RequestModel, EsiError>(
                public_get(character_path(self.client().config@.version, character_id, "/"@)),
            ),
    {
        let endpoint = Self::public_info_endpoint();
        proof {
            reveal_strlit("/characters/{character_id}/");
            reveal_strlit("/characters/{character_id}");
            reveal_strlit("/");
            assert(endpoint.template@ =~= "/characters/{character_id}"@ + "/"@);
            lemma_character_template(endpoint.template@, "/"@, character_id);
            lemma_character_path(self.client().config@.version, character_id, "/"@);
        }
        self.call(&endpoint, character_id, now)
    }

    /// The corporations that a character has been a member of.
    pub fn history_endpoint() -> (r: EndpointDescriptor)
        ensures
            r == (EndpointDescriptor {
                op_id: "get_characters_character_id_corporationhistory",
                verb: Verb::Get,
                template: "/characters/{character_id}/corporationhistory/",
                auth: RequestType::Public,
            }),
    {
        EndpointDescriptor {
            op_id: "get_characters_character_id_corporationhistory",
            verb: Verb::Get,
            template: "/characters/{character_id}/corporationhistory/",
            auth: RequestType::Public,
        }
    }

    /// Get a character's corporation history.
    pub fn get_history(&self, character_id: u64, now: u64) -> (r: Result<
        PreparedRequest,
        EsiError,
    >)
        ensures
            request_of(r) == Ok::<RequestModel, EsiError>(
                public_get(
                    character_path(
                        self.client().config@.version,
                        character_id,
                        "/corporationhistory/"@,
                    ),
                ),
            ),
    {
        let endpoint = Self::history_endpoint();
        proof {
            reveal_strlit("/characters/{character_id}/corporationhistory/");
            reveal_strlit("/characters/{character_id}");
            reveal_strlit("/corporationhistory/");
            assert(endpoint.template@ =~= "/characters/{character_id}"@
                + "/corporationhistory/"@);
            lemma_character_template(endpoint.template@, "/corporationhistory/"@, character_id);
            lemma_character_path(
                self.client().config@.version,
                character_id,
                "/corporationhistory/"@,
            );
        }
        self.call(&endpoint, character_id, now)
    }

    /// The addresses of a character's portraits.
    pub fn portrait_endpoint() -> (r: EndpointDescriptor)
        ensures
            r == (EndpointDescriptor {
                op_id: "get_characters_character_id_portrait",
                verb: Verb::Get,
                template: "/characters/{character_id}/portrait/",
                auth: RequestType::Public,
            }),
    {
        EndpointDescriptor {
            op_id: "get_characters_character_id_portrait",
            verb: Verb::Get,
            template: "/characters/{character_id}/portrait/",
            auth: RequestType::Public,
        }
    }

    /// Get a character's portrait URLs on the image server.
    pub fn get_portrait(&self, character_id: u64, now: u64) -> (r: Result<
        PreparedRequest,
        EsiError,
    >)
        ensures
            request_of(r) == Ok::<RequestModel, EsiError>(
                public_get(
                    character_path(self.client().config@.version, character_id, "/portrait/"@),
                ),
            ),
    {
        let endpoint = Self::portrait_endpoint();
        proof {
            reveal_strlit("/characters/{character_id}/portrait/");
            reveal_strlit("/characters/{character_id}");
            reveal_strlit("/portrait/");
            assert(endpoint.template@ =~= "/characters/{character_id}"@ + "/portrait/"@);
            lemma_character_template(endpoint.template@, "/portrait/"@, character_id);
            lemma_character_path(self.client().config@.version, character_id, "/portrait/"@);
        }
        self.call(&endpoint, character_id, now)
    }

    /// The corporation, alliance and faction of each of a list of characters.
    pub fn affiliation_endpoint() -> (r: EndpointDescriptor)
        ensures
            r == (EndpointDescriptor {
                op_id: "post_characters_affiliation",
                verb: Verb::Post,
                template: "/characters/affiliation/",
                auth: RequestType::Public,
            }),
    {
        EndpointDescriptor {
            op_id: "post_characters_affiliation",
            verb: Verb::Post,
            template: "/characters/affiliation/",
            auth: RequestType::Public,
        }
    }

    /// Get character affiliations.
    pub fn get_affiliation(&self, character_ids: &[u64], now: u64) -> (r: Result<
        PreparedRequest,
        EsiError,
    >)
        ensures
            request_of(r) == Ok::<RequestModel, EsiError>(
                RequestModel {
                    verb: Verb::Post,
                    path: seq!['/'] + self.client().config@.version + "/characters/affiliation/"@,
                    query: Seq::empty(),
                    headers: seq![("Content-Type"@, "application/json"@)],
                    body: Some(character_ids@),
                },
            ),
    {
        let endpoint = Self::affiliation_endpoint();
        let args: Vec<PathArg> = Vec::new();
        let query: Vec<(String, String)> = Vec::new();
        let ids = slice_to_vec(character_ids);
        proof {
            assert(query.deep_view() =~= Seq::empty());
            reveal_strlit("/characters/affiliation/");
            lemma_render_plain(endpoint.template@, args_of(args@));
        }
        self.esi.prepare(&endpoint, &args, query, Some(ids), now)
    }

    /// The blueprints that a character owns.
    pub fn blueprints_endpoint() -> (r: EndpointDescriptor)
        ensures
            r == (EndpointDescriptor {
                op_id: "get_characters_character_id_blueprints",
                verb: Verb::Get,
                template: "/characters/{character_id}/blueprints/",
                auth: RequestType::Authenticated,
            }),
    {
        EndpointDescriptor {
            op_id: "get_characters_character_id_blueprints",
            verb: Verb::Get,
            template: "/characters/{character_id}/blueprints/",
            auth: RequestType::Authenticated,
        }
    }

    /// Get character blueprints. The call is made on behalf of the user, so
    /// it is prepared only while the access token is valid.
    pub fn get_blueprints(&self, character_id: u64, now: u64) -> (r: Result<
        PreparedRequest,
        EsiError,
    >)
        ensures
            !self.client().tokens@.valid_at(now) ==> request_of(r) == Err::<
                RequestModel,
                EsiError,
            >(EsiError::TokenExpiredError),
            self.client().tokens@.valid_at(now) ==> request_of(r) == Ok::<RequestModel, EsiError>(
                RequestModel {
                    verb: Verb::Get,
                    path: character_path(
                        self.client().config@.version,
                        character_id,
                        "/blueprints/"@,
                    ),
                    query: Seq::empty(),
                    headers: seq![
                        ("Authorization"@, "Bearer "@ + self.client().tokens@.access_token->0),
                    ],
                    body: None,
                },
            ),
    {
        let endpoint = Self::blueprints_endpoint();
        proof {
            reveal_strlit("/characters/{character_id}/blueprints/");
            reveal_strlit("/characters/{character_id}");
            reveal_strlit("/blueprints/");
            assert(endpoint.template@ =~= "/characters/{character_id}"@ + "/blueprints/"@);
            lemma_character_template(endpoint.template@, "/blueprints/"@, character_id);
            lemma_character_path(self.client().config@.version, character_id, "/blueprints/"@);
        }
        self.call(&endpoint, character_id, now)
    }
}

/// The path of an endpoint of one character is the version followed by the
/// rendered template.
proof fn lemma_character_path(version: Seq<char>, character_id: u64, tail: Seq<char>)
    ensures
        seq!['/'] + version + ("/characters/"@ + decimal(character_id as nat) + tail)
            == character_path(version, character_id, tail),
{
    assert(seq!['/'] + version + ("/characters/"@ + decimal(character_id as nat) + tail)
        =~= character_path(version, character_id, tail));
}

} // verus!
