//! The session descriptor: the facts resolved for one room, how they are
//! read out of a backend's response, and how they are rendered in an output
//! dialect.

use vstd::prelude::*;
use vstd::pervasive::unreached;
use crate::dialect::{
    default_var_name, lemma_render_dialect, lemma_render_fake_publisher, rendered_text, Language,
};
use crate::errors::{Field, ParseError};
use crate::json::{json_is_object, json_lookup, json_string_field};
use crate::template::{bindings, lemma_bindings_first, render_template};

verus! {

/// The resolved facts for one room. The field values come verbatim from the
/// backend's response; `room` is the caller-supplied name and `url` the
/// human-facing room URL.
#[derive(Debug)]
pub struct SessionData {
    pub api_key: String,
    pub token: String,
    pub session_id: String,
    pub room: String,
    pub url: String,
}

impl SessionData {
    /// The placeholder bindings a render of this descriptor uses: the
    /// fake-publisher dialect binds only the three session values, every
    /// other dialect also binds room, url and the variable name.
    fn build_vars(&self, language: &Language, api_key_var_name: &String) -> (r: Vec<
        (String, String),
    >)
        ensures
            ({
                let m = bindings(r@);
                &&& m.contains_key("api_key"@) && m["api_key"@] == self.api_key@
                &&& m.contains_key("token"@) && m["token"@] == self.token@
                &&& m.contains_key("session_id"@) && m["session_id"@] == self.session_id@
                &&& *language != Language::FakePublisher ==> {
                    &&& m.contains_key("room"@) && m["room"@] == self.room@
                    &&& m.contains_key("url"@) && m["url"@] == self.url@
                    &&& m.contains_key("api_key_var_name"@) && m["api_key_var_name"@]
                        == api_key_var_name@
                }
            }),
    {
        proof {
            reveal_strlit("session_id");
            reveal_strlit("room");
            reveal_strlit("api_key");
            reveal_strlit("token");
            reveal_strlit("url");
            reveal_strlit("api_key_var_name");
        }
        let mut v: Vec<(String, String)> = Vec::new();
        match language {
            Language::FakePublisher => {
                v.push((String::from_str("session_id"), self.session_id.clone()));
                v.push((String::from_str("token"), self.token.clone()));
                v.push((String::from_str("api_key"), self.api_key.clone()));
                proof {
                    assert(v@[0].0@ == "session_id"@);
                    assert(v@[1].0@ == "token"@);
                    assert(v@[2].0@ == "api_key"@);
                    lemma_bindings_first(v@, "session_id"@, 0);
                    lemma_bindings_first(v@, "token"@, 1);
                    lemma_bindings_first(v@, "api_key"@, 2);
                }
            },
            _ => {
                v.push((String::from_str("session_id"), self.session_id.clone()));
                v.push((String::from_str("room"), self.room.clone()));
                v.push((String::from_str("api_key"), self.api_key.clone()));
                v.push((String::from_str("token"), self.token.clone()));
                v.push((String::from_str("url"), self.url.clone()));
                v.push((String::from_str("api_key_var_name"), api_key_var_name.clone()));
                proof {
                    assert(v@[0].0@ == "session_id"@);
                    assert(v@[1].0@ == "room"@);
                    assert(v@[2].0@ == "api_key"@);
                    assert(v@[3].0@ == "token"@);
                    assert(v@[4].0@ == "url"@);
                    assert(v@[5].0@ == "api_key_var_name"@);
                    lemma_bindings_first(v@, "session_id"@, 0);
                    lemma_bindings_first(v@, "room"@, 1);
                    lemma_bindings_first(v@, "api_key"@, 2);
                    lemma_bindings_first(v@, "token"@, 3);
                    lemma_bindings_first(v@, "url"@, 4);
                    lemma_bindings_first(v@, "api_key_var_name"@, 5);
                }
            },
        }
        v
    }

    /// Renders this descriptor in the given dialect, under the given name
    /// for the API-key constant. The output is exactly `rendered_text` of
    /// the descriptor's values; rendering a shipped dialect cannot fail.
    pub fn get_out_string(&self, language: &Language, api_key_var_name: &String) -> (r: String)
        ensures
            r@ == rendered_text(
                *language,
                self.room@,
                self.url@,
                self.api_key@,
                self.token@,
                self.session_id@,
                api_key_var_name@,
            ),
    {
        let format = language.get_output_format();
        let vars = self.build_vars(language, api_key_var_name);
        let res = render_template(format, &vars);
        proof {
            let m = bindings(vars@);
            if *language == Language::FakePublisher {
                lemma_render_fake_publisher(m);
            } else {
                lemma_render_dialect(*language, m);
            }
        }
        match res {
            Ok(s) => s,
            Err(_) => unreached(),
        }
    }

    /// Renders this descriptor as `get_out_string` does.
    pub fn serialize(&self, lang: &Language, api_key_var_name: &String) -> (r: String)
        ensures
            r@ == rendered_text(
                *lang,
                self.room@,
                self.url@,
                self.api_key@,
                self.token@,
                self.session_id@,
                api_key_var_name@,
            ),
    {
        self.get_out_string(lang, api_key_var_name)
    }

    /// Renders this descriptor under the caller's variable-name override
    /// where one is supplied, else under the dialect's default name.
    pub fn render(&self, language: &Language, var_name_override: Option<&String>) -> (r: String)
        ensures
            r@ == rendered_text(
                *language,
                self.room@,
                self.url@,
                self.api_key@,
                self.token@,
                self.session_id@,
                match var_name_override {
                    Some(v) => v@,
                    None => default_var_name(*language),
                },
            ),
    {
        match var_name_override {
            Some(v) => self.get_out_string(language, v),
            None => {
                let d = language.get_api_key_default_var_name();
                self.get_out_string(language, &d)
            },
        }
    }

    /// Builds the descriptor from the three field values a response held,
    /// short-circuiting on the first absent one: token, then sessionId,
    /// then apiKey.
    pub fn descriptor_from_fields(
        token: Option<String>,
        session_id: Option<String>,
        api_key: Option<String>,
        room: &str,
        display_url: &str,
    ) -> (r: Result<SessionData, ParseError>)
        ensures
            token is None ==> r == Err::<SessionData, ParseError>(
                ParseError::MissingField(Field::Token),
            ),
            token is Some && session_id is None ==> r == Err::<SessionData, ParseError>(
                ParseError::MissingField(Field::SessionId),
            ),
            token is Some && session_id is Some && api_key is None ==> r == Err::<
                SessionData,
                ParseError,
            >(ParseError::MissingField(Field::ApiKey)),
            token is Some && session_id is Some && api_key is Some ==> r is Ok && ({
                let sd = r->Ok_0;
                &&& sd.token@ == token->0@
                &&& sd.session_id@ == session_id->0@
                &&& sd.api_key@ == api_key->0@
                &&& sd.room@ == room@
                &&& sd.url@ == display_url@
            }),
    {
        let t = match token {
            Some(t) => t,
            None => {
                return Err(ParseError::MissingField(Field::Token));
            },
        };
        let s = match session_id {
            Some(s) => s,
            None => {
                return Err(ParseError::MissingField(Field::SessionId));
            },
        };
        let a = match api_key {
            Some(a) => a,
            None => {
                return Err(ParseError::MissingField(Field::ApiKey));
            },
        };
        Ok(
            SessionData {
                api_key: a,
                token: t,
                session_id: s,
                room: String::from_str(room),
                url: display_url.to_owned(),
            },
        )
    }

    /// Reads a backend's response body into a descriptor: the body must be
    /// a JSON object carrying the string fields token, sessionId and
    /// apiKey; the first absent field names the failure. sessionId fills
    /// the descriptor's session_id and token its token, never the other
    /// way around.
    pub fn from_response(body: &str, room: &str, display_url: &str) -> (r: Result<
        SessionData,
        ParseError,
    >)
        ensures
            !json_is_object(body@) ==> r == Err::<SessionData, ParseError>(
                ParseError::MalformedResponse,
            ),
            json_is_object(body@) ==> ({
                let tok = json_string_field(body@, "token"@);
                let sid = json_string_field(body@, "sessionId"@);
                let ak = json_string_field(body@, "apiKey"@);
                match r {
                    Ok(sd) => {
                        &&& tok is Some && sid is Some && ak is Some
                        &&& sd.token@ == tok->0
                        &&& sd.session_id@ == sid->0
                        &&& sd.api_key@ == ak->0
                        &&& sd.room@ == room@
                        &&& sd.url@ == display_url@
                    },
                    Err(e) => {
                        ||| (e == ParseError::MissingField(Field::Token) && tok is None)
                        ||| (e == ParseError::MissingField(Field::SessionId) && tok is Some
                            && sid is None)
                        ||| (e == ParseError::MissingField(Field::ApiKey) && tok is Some
                            && sid is Some && ak is None)
                    },
                }
            }),
    {
        let token = match json_lookup(body, "token") {
            Some(t) => t,
            None => {
                return Err(ParseError::MalformedResponse);
            },
        };
        let session_id = match json_lookup(body, "sessionId") {
            Some(s) => s,
            None => {
                return Err(ParseError::MalformedResponse);
            },
        };
        let api_key = match json_lookup(body, "apiKey") {
            Some(a) => a,
            None => {
                return Err(ParseError::MalformedResponse);
            },
        };
        Self::descriptor_from_fields(token, session_id, api_key, room, display_url)
    }
}

} // verus!
