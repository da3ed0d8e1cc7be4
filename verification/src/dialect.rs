//! The output dialects: for each target language, a default name for the
//! API-key constant and a template with named placeholders, together with
//! proofs that rendering each template succeeds and produces exactly the
//! expected text.

use vstd::prelude::*;
use crate::errors::ConfigError;
use crate::template::{
    brace_free, contains_str, lemma_contains_here, lemma_contains_shift, lemma_subst_literal,
    lemma_subst_step, str_eq, subst, SubstErr,
};

verus! {

/// One supported output syntax for the rendered snippet.
#[derive(Debug, Clone, Copy, PartialEq, Eq, Structural)]
pub enum Language {
    Swift,
    ObjC,
    Java,
    Kotlin,
    Python,
    FakePublisher,
    Csharp,
    Javascript,
}

/// The language a command-line tag selects, if any.
pub open spec fn language_of_tag(s: Seq<char>) -> Option<Language> {
    if s == "swift"@ {
        Some(Language::Swift)
    } else if s == "objc"@ {
        Some(Language::ObjC)
    } else if s == "java"@ {
        Some(Language::Java)
    } else if s == "kotlin"@ {
        Some(Language::Kotlin)
    } else if s == "python"@ {
        Some(Language::Python)
    } else if s == "fake-publisher"@ {
        Some(Language::FakePublisher)
    } else if s == "csharp"@ {
        Some(Language::Csharp)
    } else if s == "javascript"@ {
        Some(Language::Javascript)
    } else {
        None
    }
}

/// The default name of the API-key constant: a hint-prefixed name for the
/// two dialects that use that convention, a plain uppercase name otherwise.
pub open spec fn default_var_name(l: Language) -> Seq<char> {
    if l == Language::Swift || l == Language::ObjC {
        "kApiKey"@
    } else {
        "APIKEY"@
    }
}

/// The two naming conventions behind `default_var_name`: Swift and
/// Objective-C declare the hint-prefixed constant style, every other
/// dialect the plain uppercase style.
pub proof fn lemma_default_name_convention(l: Language)
    ensures
        (l == Language::Swift || l == Language::ObjC) ==> default_var_name(l) == "kApiKey"@,
        !(l == Language::Swift || l == Language::ObjC) ==> default_var_name(l) == "APIKEY"@,
{
}

/// The dialect's template, with `{name}` placeholders.
pub open spec fn template_text(l: Language) -> Seq<char> {
    match l {
        Language::ObjC => "// room: {room} ( {url} )\nstatic NSString* const {api_key_var_name} = @\"{api_key}\";\nstatic NSString* const kToken = @\"{token}\";\nstatic NSString* const kSessionId = @\"{session_id}\";\n"@,
        Language::Swift => "// room: {room} ( {url} )\nlet {api_key_var_name} = \"{api_key}\"\nlet kToken = \"{token}\"\nlet kSessionId = \"{session_id}\"\n"@,
        Language::Java => "//room: {room} ( {url} )\npublic static final String {api_key_var_name} = \"{api_key}\";\npublic static final String TOKEN = \"{token}\";\npublic static final String SESSION_ID = \"{session_id}\";\n"@,
        Language::Kotlin => "//room: {room} ( {url} )\nval {api_key_var_name} = \"{api_key}\";\nval TOKEN = \"{token}\";\nval SESSION_ID = \"{session_id}\";\n"@,
        Language::Python => "#room: {room} ( {url} )\n{api_key_var_name} = \"{api_key}\"\nTOKEN = \"{token}\"\nSESSION_ID = \"{session_id}\"\n"@,
        Language::FakePublisher => "fake-publisher -sessionId \"{session_id}\" -token \"{token}\" -apiKey \"{api_key}\""@,
        Language::Csharp => "//room: {room} ( {url} )\npublic string {api_key_var_name} = \"{api_key}\";\npublic string TOKEN = \"{token}\";\npublic string SESSION_ID = \"{session_id}\";\n"@,
        Language::Javascript => "//room: {room} ( {url} )\nconst {api_key_var_name} = \"{api_key}\";\nconst TOKEN = \"{token}\";\nconst SESSION_ID = \"{session_id}\";\n"@,
    }
}

impl Language {
    /// The language a command-line tag selects, or the configuration error.
    pub fn from_str(s: &str) -> (r: Result<Language, ConfigError>)
        ensures
            match r {
                Ok(l) => language_of_tag(s@) == Some(l),
                Err(e) => e == ConfigError::UnknownDialect && language_of_tag(s@) is None,
            },
    {
        if str_eq(s, "swift") {
            Ok(Language::Swift)
        } else if str_eq(s, "objc") {
            Ok(Language::ObjC)
        } else if str_eq(s, "java") {
            Ok(Language::Java)
        } else if str_eq(s, "kotlin") {
            Ok(Language::Kotlin)
        } else if str_eq(s, "python") {
            Ok(Language::Python)
        } else if str_eq(s, "fake-publisher") {
            Ok(Language::FakePublisher)
        } else if str_eq(s, "csharp") {
            Ok(Language::Csharp)
        } else if str_eq(s, "javascript") {
            Ok(Language::Javascript)
        } else {
            Err(ConfigError::UnknownDialect)
        }
    }

    /// The default name for the API-key constant in this dialect.
    pub fn get_api_key_default_var_name(&self) -> (r: String)
        ensures
            r@ == default_var_name(*self),
    {
        match self {
            Language::Swift | Language::ObjC => String::from_str("kApiKey"),
            _ => String::from_str("APIKEY"),
        }
    }

    /// The dialect's template string.
    pub fn get_output_format(&self) -> (r: &'static str)
        ensures
            r@ == template_text(*self),
    {
        match self {
            Language::ObjC => "// room: {room} ( {url} )\nstatic NSString* const {api_key_var_name} = @\"{api_key}\";\nstatic NSString* const kToken = @\"{token}\";\nstatic NSString* const kSessionId = @\"{session_id}\";\n",
            Language::Swift => "// room: {room} ( {url} )\nlet {api_key_var_name} = \"{api_key}\"\nlet kToken = \"{token}\"\nlet kSessionId = \"{session_id}\"\n",
            Language::Java => "//room: {room} ( {url} )\npublic static final String {api_key_var_name} = \"{api_key}\";\npublic static final String TOKEN = \"{token}\";\npublic static final String SESSION_ID = \"{session_id}\";\n",
            Language::Kotlin => "//room: {room} ( {url} )\nval {api_key_var_name} = \"{api_key}\";\nval TOKEN = \"{token}\";\nval SESSION_ID = \"{session_id}\";\n",
            Language::Python => "#room: {room} ( {url} )\n{api_key_var_name} = \"{api_key}\"\nTOKEN = \"{token}\"\nSESSION_ID = \"{session_id}\"\n",
            Language::FakePublisher => "fake-publisher -sessionId \"{session_id}\" -token \"{token}\" -apiKey \"{api_key}\"",
            Language::Csharp => "//room: {room} ( {url} )\npublic string {api_key_var_name} = \"{api_key}\";\npublic string TOKEN = \"{token}\";\npublic string SESSION_ID = \"{session_id}\";\n",
            Language::Javascript => "//room: {room} ( {url} )\nconst {api_key_var_name} = \"{api_key}\";\nconst TOKEN = \"{token}\";\nconst SESSION_ID = \"{session_id}\";\n",
        }
    }
}

/// The shape shared by every dialect but the fake-publisher command: seven
/// literal segments around the placeholders room, url, api_key_var_name,
/// api_key, token and session_id, in that order.
pub open spec fn std_template(
    s0: Seq<char>,
    s1: Seq<char>,
    s2: Seq<char>,
    s3: Seq<char>,
    s4: Seq<char>,
    s5: Seq<char>,
    s6: Seq<char>,
) -> Seq<char> {
    s0 + ("{"@ + ("room"@ + ("}"@ + (s1 + ("{"@ + ("url"@ + ("}"@ + (s2 + ("{"@ + (
    "api_key_var_name"@ + ("}"@ + (s3 + ("{"@ + ("api_key"@ + ("}"@ + (s4 + ("{"@ + ("token"@ + (
    "}"@ + (s5 + ("{"@ + ("session_id"@ + ("}"@ + s6)))))))))))))))))))))))
}

/// What the shared shape renders as, once every placeholder is replaced.
pub open spec fn std_rendered(
    s0: Seq<char>,
    s1: Seq<char>,
    s2: Seq<char>,
    s3: Seq<char>,
    s4: Seq<char>,
    s5: Seq<char>,
    s6: Seq<char>,
    room: Seq<char>,
    url: Seq<char>,
    akvn: Seq<char>,
    ak: Seq<char>,
    tok: Seq<char>,
    sid: Seq<char>,
) -> Seq<char> {
    s0 + (room + (s1 + (url + (s2 + (akvn + (s3 + (ak + (s4 + (tok + (s5 + (sid + s6)))))))))))
}

/// The fake-publisher shape: four literal segments around the placeholders
/// session_id, token and api_key, in that order.
pub open spec fn fp_template(
    s0: Seq<char>,
    s1: Seq<char>,
    s2: Seq<char>,
    s3: Seq<char>,
) -> Seq<char> {
    s0 + ("{"@ + ("session_id"@ + ("}"@ + (s1 + ("{"@ + ("token"@ + ("}"@ + (s2 + ("{"@ + (
    "api_key"@ + ("}"@ + s3)))))))))))
}

/// What the fake-publisher shape renders as.
pub open spec fn fp_rendered(
    s0: Seq<char>,
    s1: Seq<char>,
    s2: Seq<char>,
    s3: Seq<char>,
    sid: Seq<char>,
    tok: Seq<char>,
    ak: Seq<char>,
) -> Seq<char> {
    s0 + (sid + (s1 + (tok + (s2 + (ak + s3)))))
}

proof fn lemma_subst_std(
    s0: Seq<char>,
    s1: Seq<char>,
    s2: Seq<char>,
    s3: Seq<char>,
    s4: Seq<char>,
    s5: Seq<char>,
    s6: Seq<char>,
    m: Map<Seq<char>, Seq<char>>,
)
    requires
        brace_free(s0),
        brace_free(s1),
        brace_free(s2),
        brace_free(s3),
        brace_free(s4),
        brace_free(s5),
        brace_free(s6),
        m.contains_key("room"@),
        m.contains_key("url"@),
        m.contains_key("api_key_var_name"@),
        m.contains_key("api_key"@),
        m.contains_key("token"@),
        m.contains_key("session_id"@),
    ensures
        subst(std_template(s0, s1, s2, s3, s4, s5, s6), m) == Ok::<Seq<char>, SubstErr>(
            std_rendered(
                s0,
                s1,
                s2,
                s3,
                s4,
                s5,
                s6,
                m["room"@],
                m["url"@],
                m["api_key_var_name"@],
                m["api_key"@],
                m["token"@],
                m["session_id"@],
            ),
        ),
{
    reveal_strlit("room");
    reveal_strlit("url");
    reveal_strlit("api_key_var_name");
    reveal_strlit("api_key");
    reveal_strlit("token");
    reveal_strlit("session_id");
    let t5 = s5 + ("{"@ + ("session_id"@ + ("}"@ + s6)));
    let t4 = s4 + ("{"@ + ("token"@ + ("}"@ + t5)));
    let t3 = s3 + ("{"@ + ("api_key"@ + ("}"@ + t4)));
    let t2 = s2 + ("{"@ + ("api_key_var_name"@ + ("}"@ + t3)));
    let t1 = s1 + ("{"@ + ("url"@ + ("}"@ + t2)));
    lemma_subst_step(s5, "session_id"@, s6, m);
    lemma_subst_literal(s6, m);
    lemma_subst_step(s4, "token"@, t5, m);
    lemma_subst_step(s3, "api_key"@, t4, m);
    lemma_subst_step(s2, "api_key_var_name"@, t3, m);
    lemma_subst_step(s1, "url"@, t2, m);
    lemma_subst_step(s0, "room"@, t1, m);
}

proof fn lemma_subst_fp(
    s0: Seq<char>,
    s1: Seq<char>,
    s2: Seq<char>,
    s3: Seq<char>,
    m: Map<Seq<char>, Seq<char>>,
)
    requires
        brace_free(s0),
        brace_free(s1),
        brace_free(s2),
        brace_free(s3),
        m.contains_key("api_key"@),
        m.contains_key("token"@),
        m.contains_key("session_id"@),
    ensures
        subst(fp_template(s0, s1, s2, s3), m) == Ok::<Seq<char>, SubstErr>(
            fp_rendered(s0, s1, s2, s3, m["session_id"@], m["token"@], m["api_key"@]),
        ),
{
    reveal_strlit("api_key");
    reveal_strlit("token");
    reveal_strlit("session_id");
    let t2 = s2 + ("{"@ + ("api_key"@ + ("}"@ + s3)));
    let t1 = s1 + ("{"@ + ("token"@ + ("}"@ + t2)));
    lemma_subst_literal(s3, m);
    lemma_subst_step(s2, "api_key"@, s3, m);
    lemma_subst_step(s1, "token"@, t2, m);
    lemma_subst_step(s0, "session_id"@, t1, m);
}

/// The exact text a dialect renders as, given the six values.
pub open spec fn rendered_text(
    l: Language,
    room: Seq<char>,
    url: Seq<char>,
    ak: Seq<char>,
    tok: Seq<char>,
    sid: Seq<char>,
    akvn: Seq<char>,
) -> Seq<char> {
    match l {
        Language::ObjC => std_rendered(
            "// room: "@,
            " ( "@,
            " )\nstatic NSString* const "@,
            " = @\""@,
            "\";\nstatic NSString* const kToken = @\""@,
            "\";\nstatic NSString* const kSessionId = @\""@,
            "\";\n"@,
            room,
            url,
            akvn,
            ak,
            tok,
            sid,
        ),
        Language::Swift => std_rendered(
            "// room: "@,
            " ( "@,
            " )\nlet "@,
            " = \""@,
            "\"\nlet kToken = \""@,
            "\"\nlet kSessionId = \""@,
            "\"\n"@,
            room,
            url,
            akvn,
            ak,
            tok,
            sid,
        ),
        Language::Java => std_rendered(
            "//room: "@,
            " ( "@,
            " )\npublic static final String "@,
            " = \""@,
            "\";\npublic static final String TOKEN = \""@,
            "\";\npublic static final String SESSION_ID = \""@,
            "\";\n"@,
            room,
            url,
            akvn,
            ak,
            tok,
            sid,
        ),
        Language::Kotlin => std_rendered(
            "//room: "@,
            " ( "@,
            " )\nval "@,
            " = \""@,
            "\";\nval TOKEN = \""@,
            "\";\nval SESSION_ID = \""@,
            "\";\n"@,
            room,
            url,
            akvn,
            ak,
            tok,
            sid,
        ),
        Language::Python => std_rendered(
            "#room: "@,
            " ( "@,
            " )\n"@,
            " = \""@,
            "\"\nTOKEN = \""@,
            "\"\nSESSION_ID = \""@,
            "\"\n"@,
            room,
            url,
            akvn,
            ak,
            tok,
            sid,
        ),
        Language::FakePublisher => fp_rendered(
            "fake-publisher -sessionId \""@,
            "\" -token \""@,
            "\" -apiKey \""@,
            "\""@,
            sid,
            tok,
            ak,
        ),
        Language::Csharp => std_rendered(
            "//room: "@,
            " ( "@,
            " )\npublic string "@,
            " = \""@,
            "\";\npublic string TOKEN = \""@,
            "\";\npublic string SESSION_ID = \""@,
            "\";\n"@,
            room,
            url,
            akvn,
            ak,
            tok,
            sid,
        ),
        Language::Javascript => std_rendered(
            "//room: "@,
            " ( "@,
            " )\nconst "@,
            " = \""@,
            "\";\nconst TOKEN = \""@,
            "\";\nconst SESSION_ID = \""@,
            "\";\n"@,
            room,
            url,
            akvn,
            ak,
            tok,
            sid,
        ),
    }
}

proof fn lemma_std_rendered_contains(
    s0: Seq<char>,
    s1: Seq<char>,
    s2: Seq<char>,
    s3: Seq<char>,
    s4: Seq<char>,
    s5: Seq<char>,
    s6: Seq<char>,
    room: Seq<char>,
    url: Seq<char>,
    akvn: Seq<char>,
    ak: Seq<char>,
    tok: Seq<char>,
    sid: Seq<char>,
)
    ensures
        contains_str(std_rendered(s0, s1, s2, s3, s4, s5, s6, room, url, akvn, ak, tok, sid), ak),
        contains_str(std_rendered(s0, s1, s2, s3, s4, s5, s6, room, url, akvn, ak, tok, sid), tok),
        contains_str(std_rendered(s0, s1, s2, s3, s4, s5, s6, room, url, akvn, ak, tok, sid), sid),
        contains_str(
            std_rendered(s0, s1, s2, s3, s4, s5, s6, room, url, akvn, ak, tok, sid),
            akvn,
        ),
{
    let x_sid = sid + s6;
    let x5 = s5 + x_sid;
    let x_tok = tok + x5;
    let x4 = s4 + x_tok;
    let x_ak = ak + x4;
    let x3 = s3 + x_ak;
    let x_akvn = akvn + x3;
    let x2 = s2 + x_akvn;
    let x_url = url + x2;
    let x1 = s1 + x_url;
    let x_room = room + x1;
    lemma_contains_here(sid, s6);
    lemma_contains_shift(s5, x_sid, sid);
    lemma_contains_shift(tok, x5, sid);
    lemma_contains_shift(s4, x_tok, sid);
    lemma_contains_shift(ak, x4, sid);
    lemma_contains_shift(s3, x_ak, sid);
    lemma_contains_shift(akvn, x3, sid);
    lemma_contains_shift(s2, x_akvn, sid);
    lemma_contains_shift(url, x2, sid);
    lemma_contains_shift(s1, x_url, sid);
    lemma_contains_shift(room, x1, sid);
    lemma_contains_shift(s0, x_room, sid);
    lemma_contains_here(tok, x5);
    lemma_contains_shift(s4, x_tok, tok);
    lemma_contains_shift(ak, x4, tok);
    lemma_contains_shift(s3, x_ak, tok);
    lemma_contains_shift(akvn, x3, tok);
    lemma_contains_shift(s2, x_akvn, tok);
    lemma_contains_shift(url, x2, tok);
    lemma_contains_shift(s1, x_url, tok);
    lemma_contains_shift(room, x1, tok);
    lemma_contains_shift(s0, x_room, tok);
    lemma_contains_here(ak, x4);
    lemma_contains_shift(s3, x_ak, ak);
    lemma_contains_shift(akvn, x3, ak);
    lemma_contains_shift(s2, x_akvn, ak);
    lemma_contains_shift(url, x2, ak);
    lemma_contains_shift(s1, x_url, ak);
    lemma_contains_shift(room, x1, ak);
    lemma_contains_shift(s0, x_room, ak);
    lemma_contains_here(akvn, x3);
    lemma_contains_shift(s2, x_akvn, akvn);
    lemma_contains_shift(url, x2, akvn);
    lemma_contains_shift(s1, x_url, akvn);
    lemma_contains_shift(room, x1, akvn);
    lemma_contains_shift(s0, x_room, akvn);
}

proof fn lemma_fp_rendered_contains(
    s0: Seq<char>,
    s1: Seq<char>,
    s2: Seq<char>,
    s3: Seq<char>,
    sid: Seq<char>,
    tok: Seq<char>,
    ak: Seq<char>,
)
    ensures
        contains_str(fp_rendered(s0, s1, s2, s3, sid, tok, ak), ak),
        contains_str(fp_rendered(s0, s1, s2, s3, sid, tok, ak), tok),
        contains_str(fp_rendered(s0, s1, s2, s3, sid, tok, ak), sid),
{
    let y_ak = ak + s3;
    let y2 = s2 + y_ak;
    let y_tok = tok + y2;
    let y1 = s1 + y_tok;
    let y_sid = sid + y1;
    lemma_contains_here(ak, s3);
    lemma_contains_shift(s2, y_ak, ak);
    lemma_contains_shift(tok, y2, ak);
    lemma_contains_shift(s1, y_tok, ak);
    lemma_contains_shift(sid, y1, ak);
    lemma_contains_shift(s0, y_sid, ak);
    lemma_contains_here(tok, y2);
    lemma_contains_shift(s1, y_tok, tok);
    lemma_contains_shift(sid, y1, tok);
    lemma_contains_shift(s0, y_sid, tok);
    lemma_contains_here(sid, y1);
    lemma_contains_shift(s0, y_sid, sid);
}

/// In every supported dialect, rendering a descriptor whose api_key, token
/// and session_id are non-empty yields text that carries those three
/// values verbatim.
pub proof fn lemma_rendered_contains_values(
    l: Language,
    room: Seq<char>,
    url: Seq<char>,
    ak: Seq<char>,
    tok: Seq<char>,
    sid: Seq<char>,
    akvn: Seq<char>,
)
    requires
        ak.len() > 0,
        tok.len() > 0,
        sid.len() > 0,
    ensures
        contains_str(rendered_text(l, room, url, ak, tok, sid, akvn), ak),
        contains_str(rendered_text(l, room, url, ak, tok, sid, akvn), tok),
        contains_str(rendered_text(l, room, url, ak, tok, sid, akvn), sid),
{
    match l {
        Language::ObjC => lemma_std_rendered_contains(
            "// room: "@,
            " ( "@,
            " )\nstatic NSString* const "@,
            " = @\""@,
            "\";\nstatic NSString* const kToken = @\""@,
            "\";\nstatic NSString* const kSessionId = @\""@,
            "\";\n"@,
            room,
            url,
            akvn,
            ak,
            tok,
            sid,
        ),
        Language::Swift => lemma_std_rendered_contains(
            "// room: "@,
            " ( "@,
            " )\nlet "@,
            " = \""@,
            "\"\nlet kToken = \""@,
            "\"\nlet kSessionId = \""@,
            "\"\n"@,
            room,
            url,
            akvn,
            ak,
            tok,
            sid,
        ),
        Language::Java => lemma_std_rendered_contains(
            "//room: "@,
            " ( "@,
            " )\npublic static final String "@,
            " = \""@,
            "\";\npublic static final String TOKEN = \""@,
            "\";\npublic static final String SESSION_ID = \""@,
            "\";\n"@,
            room,
            url,
            akvn,
            ak,
            tok,
            sid,
        ),
        Language::Kotlin => lemma_std_rendered_contains(
            "//room: "@,
            " ( "@,
            " )\nval "@,
            " = \""@,
            "\";\nval TOKEN = \""@,
            "\";\nval SESSION_ID = \""@,
            "\";\n"@,
            room,
            url,
            akvn,
            ak,
            tok,
            sid,
        ),
        Language::Python => lemma_std_rendered_contains(
            "#room: "@,
            " ( "@,
            " )\n"@,
            " = \""@,
            "\"\nTOKEN = \""@,
            "\"\nSESSION_ID = \""@,
            "\"\n"@,
            room,
            url,
            akvn,
            ak,
            tok,
            sid,
        ),
        Language::FakePublisher => lemma_fp_rendered_contains(
            "fake-publisher -sessionId \""@,
            "\" -token \""@,
            "\" -apiKey \""@,
            "\""@,
            sid,
            tok,
            ak,
        ),
        Language::Csharp => lemma_std_rendered_contains(
            "//room: "@,
            " ( "@,
            " )\npublic string "@,
            " = \""@,
            "\";\npublic string TOKEN = \""@,
            "\";\npublic string SESSION_ID = \""@,
            "\";\n"@,
            room,
            url,
            akvn,
            ak,
            tok,
            sid,
        ),
        Language::Javascript => lemma_std_rendered_contains(
            "//room: "@,
            " ( "@,
            " )\nconst "@,
            " = \""@,
            "\";\nconst TOKEN = \""@,
            "\";\nconst SESSION_ID = \""@,
            "\";\n"@,
            room,
            url,
            akvn,
            ak,
            tok,
            sid,
        ),
    }
}

/// In every dialect whose template references the variable-name
/// placeholder — all but the fake-publisher command — the name the render
/// was given appears verbatim in the rendered text.
pub proof fn lemma_rendered_contains_var_name(
    l: Language,
    room: Seq<char>,
    url: Seq<char>,
    ak: Seq<char>,
    tok: Seq<char>,
    sid: Seq<char>,
    akvn: Seq<char>,
)
    requires
        l != Language::FakePublisher,
    ensures
        contains_str(rendered_text(l, room, url, ak, tok, sid, akvn), akvn),
{
    match l {
        Language::ObjC => lemma_std_rendered_contains(
            "// room: "@,
            " ( "@,
            " )\nstatic NSString* const "@,
            " = @\""@,
            "\";\nstatic NSString* const kToken = @\""@,
            "\";\nstatic NSString* const kSessionId = @\""@,
            "\";\n"@,
            room,
            url,
            akvn,
            ak,
            tok,
            sid,
        ),
        Language::Swift => lemma_std_rendered_contains(
            "// room: "@,
            " ( "@,
            " )\nlet "@,
            " = \""@,
            "\"\nlet kToken = \""@,
            "\"\nlet kSessionId = \""@,
            "\"\n"@,
            room,
            url,
            akvn,
            ak,
            tok,
            sid,
        ),
        Language::Java => lemma_std_rendered_contains(
            "//room: "@,
            " ( "@,
            " )\npublic static final String "@,
            " = \""@,
            "\";\npublic static final String TOKEN = \""@,
            "\";\npublic static final String SESSION_ID = \""@,
            "\";\n"@,
            room,
            url,
            akvn,
            ak,
            tok,
            sid,
        ),
        Language::Kotlin => lemma_std_rendered_contains(
            "//room: "@,
            " ( "@,
            " )\nval "@,
            " = \""@,
            "\";\nval TOKEN = \""@,
            "\";\nval SESSION_ID = \""@,
            "\";\n"@,
            room,
            url,
            akvn,
            ak,
            tok,
            sid,
        ),
        Language::Python => lemma_std_rendered_contains(
            "#room: "@,
            " ( "@,
            " )\n"@,
            " = \""@,
            "\"\nTOKEN = \""@,
            "\"\nSESSION_ID = \""@,
            "\"\n"@,
            room,
            url,
            akvn,
            ak,
            tok,
            sid,
        ),
        Language::FakePublisher => (),
        Language::Csharp => lemma_std_rendered_contains(
            "//room: "@,
            " ( "@,
            " )\npublic string "@,
            " = \""@,
            "\";\npublic string TOKEN = \""@,
            "\";\npublic string SESSION_ID = \""@,
            "\";\n"@,
            room,
            url,
            akvn,
            ak,
            tok,
            sid,
        ),
        Language::Javascript => lemma_std_rendered_contains(
            "//room: "@,
            " ( "@,
            " )\nconst "@,
            " = \""@,
            "\";\nconst TOKEN = \""@,
            "\";\nconst SESSION_ID = \""@,
            "\";\n"@,
            room,
            url,
            akvn,
            ak,
            tok,
            sid,
        ),
    }
}

/// Rendering the fake-publisher template needs only the api_key, token and
/// session_id bindings; its template references no other placeholder.
#[verifier::spinoff_prover]
pub proof fn lemma_render_fake_publisher(m: Map<Seq<char>, Seq<char>>)
    requires
        m.contains_key("api_key"@),
        m.contains_key("token"@),
        m.contains_key("session_id"@),
    ensures
        subst(template_text(Language::FakePublisher), m) == Ok::<Seq<char>, SubstErr>(
            rendered_text(
                Language::FakePublisher,
                Seq::empty(),
                Seq::empty(),
                m["api_key"@],
                m["token"@],
                m["session_id"@],
                Seq::empty(),
            ),
        ),
{
    reveal_strlit("{");
    reveal_strlit("}");
    reveal_strlit("api_key");
    reveal_strlit("token");
    reveal_strlit("session_id");
    reveal_strlit("fake-publisher -sessionId \"{session_id}\" -token \"{token}\" -apiKey \"{api_key}\"");
    reveal_strlit("fake-publisher -sessionId \"");
    reveal_strlit("\" -token \"");
    reveal_strlit("\" -apiKey \"");
    reveal_strlit("\"");
    assert(template_text(Language::FakePublisher) =~= fp_template(
        "fake-publisher -sessionId \""@,
        "\" -token \""@,
        "\" -apiKey \""@,
        "\""@,
    ));
    lemma_subst_fp(
        "fake-publisher -sessionId \""@,
        "\" -token \""@,
        "\" -apiKey \""@,
        "\""@,
        m,
    );
}

#[verifier::spinoff_prover]
proof fn lemma_render_objc(m: Map<Seq<char>, Seq<char>>)
    requires
        m.contains_key("room"@),
        m.contains_key("url"@),
        m.contains_key("api_key_var_name"@),
        m.contains_key("api_key"@),
        m.contains_key("token"@),
        m.contains_key("session_id"@),
    ensures
        subst(template_text(Language::ObjC), m) == Ok::<Seq<char>, SubstErr>(
            rendered_text(
                Language::ObjC,
                m["room"@],
                m["url"@],
                m["api_key"@],
                m["token"@],
                m["session_id"@],
                m["api_key_var_name"@],
            ),
        ),
{
    reveal_strlit("{");
    reveal_strlit("}");
    reveal_strlit("room");
    reveal_strlit("url");
    reveal_strlit("api_key_var_name");
    reveal_strlit("api_key");
    reveal_strlit("token");
    reveal_strlit("session_id");
    reveal_strlit("// room: {room} ( {url} )\nstatic NSString* const {api_key_var_name} = @\"{api_key}\";\nstatic NSString* const kToken = @\"{token}\";\nstatic NSString* const kSessionId = @\"{session_id}\";\n");
    reveal_strlit("// room: ");
    reveal_strlit(" ( ");
    reveal_strlit(" )\nstatic NSString* const ");
    reveal_strlit(" = @\"");
    reveal_strlit("\";\nstatic NSString* const kToken = @\"");
    reveal_strlit("\";\nstatic NSString* const kSessionId = @\"");
    reveal_strlit("\";\n");
    assert(template_text(Language::ObjC) =~= std_template(
        "// room: "@,
        " ( "@,
        " )\nstatic NSString* const "@,
        " = @\""@,
        "\";\nstatic NSString* const kToken = @\""@,
        "\";\nstatic NSString* const kSessionId = @\""@,
        "\";\n"@,
    ));
    lemma_subst_std(
        "// room: "@,
        " ( "@,
        " )\nstatic NSString* const "@,
        " = @\""@,
        "\";\nstatic NSString* const kToken = @\""@,
        "\";\nstatic NSString* const kSessionId = @\""@,
        "\";\n"@,
        m,
    );
}

#[verifier::spinoff_prover]
proof fn lemma_render_swift(m: Map<Seq<char>, Seq<char>>)
    requires
        m.contains_key("room"@),
        m.contains_key("url"@),
        m.contains_key("api_key_var_name"@),
        m.contains_key("api_key"@),
        m.contains_key("token"@),
        m.contains_key("session_id"@),
    ensures
        subst(template_text(Language::Swift), m) == Ok::<Seq<char>, SubstErr>(
            rendered_text(
                Language::Swift,
                m["room"@],
                m["url"@],
                m["api_key"@],
                m["token"@],
                m["session_id"@],
                m["api_key_var_name"@],
            ),
        ),
{
    reveal_strlit("{");
    reveal_strlit("}");
    reveal_strlit("room");
    reveal_strlit("url");
    reveal_strlit("api_key_var_name");
    reveal_strlit("api_key");
    reveal_strlit("token");
    reveal_strlit("session_id");
    reveal_strlit("// room: {room} ( {url} )\nlet {api_key_var_name} = \"{api_key}\"\nlet kToken = \"{token}\"\nlet kSessionId = \"{session_id}\"\n");
    reveal_strlit("// room: ");
    reveal_strlit(" ( ");
    reveal_strlit(" )\nlet ");
    reveal_strlit(" = \"");
    reveal_strlit("\"\nlet kToken = \"");
    reveal_strlit("\"\nlet kSessionId = \"");
    reveal_strlit("\"\n");
    assert(template_text(Language::Swift) =~= std_template(
        "// room: "@,
        " ( "@,
        " )\nlet "@,
        " = \""@,
        "\"\nlet kToken = \""@,
        "\"\nlet kSessionId = \""@,
        "\"\n"@,
    ));
    lemma_subst_std(
        "// room: "@,
        " ( "@,
        " )\nlet "@,
        " = \""@,
        "\"\nlet kToken = \""@,
        "\"\nlet kSessionId = \""@,
        "\"\n"@,
        m,
    );
}

#[verifier::spinoff_prover]
proof fn lemma_render_java(m: Map<Seq<char>, Seq<char>>)
    requires
        m.contains_key("room"@),
        m.contains_key("url"@),
        m.contains_key("api_key_var_name"@),
        m.contains_key("api_key"@),
        m.contains_key("token"@),
        m.contains_key("session_id"@),
    ensures
        subst(template_text(Language::Java), m) == Ok::<Seq<char>, SubstErr>(
            rendered_text(
                Language::Java,
                m["room"@],
                m["url"@],
                m["api_key"@],
                m["token"@],
                m["session_id"@],
                m["api_key_var_name"@],
            ),
        ),
{
    reveal_strlit("{");
    reveal_strlit("}");
    reveal_strlit("room");
    reveal_strlit("url");
    reveal_strlit("api_key_var_name");
    reveal_strlit("api_key");
    reveal_strlit("token");
    reveal_strlit("session_id");
    reveal_strlit("//room: {room} ( {url} )\npublic static final String {api_key_var_name} = \"{api_key}\";\npublic static final String TOKEN = \"{token}\";\npublic static final String SESSION_ID = \"{session_id}\";\n");
    reveal_strlit("//room: ");
    reveal_strlit(" ( ");
    reveal_strlit(" )\npublic static final String ");
    reveal_strlit(" = \"");
    reveal_strlit("\";\npublic static final String TOKEN = \"");
    reveal_strlit("\";\npublic static final String SESSION_ID = \"");
    reveal_strlit("\";\n");
    assert(template_text(Language::Java) =~= std_template(
        "//room: "@,
        " ( "@,
        " )\npublic static final String "@,
        " = \""@,
        "\";\npublic static final String TOKEN = \""@,
        "\";\npublic static final String SESSION_ID = \""@,
        "\";\n"@,
    ));
    lemma_subst_std(
        "//room: "@,
        " ( "@,
        " )\npublic static final String "@,
        " = \""@,
        "\";\npublic static final String TOKEN = \""@,
        "\";\npublic static final String SESSION_ID = \""@,
        "\";\n"@,
        m,
    );
}

#[verifier::spinoff_prover]
proof fn lemma_render_kotlin(m: Map<Seq<char>, Seq<char>>)
    requires
        m.contains_key("room"@),
        m.contains_key("url"@),
        m.contains_key("api_key_var_name"@),
        m.contains_key("api_key"@),
        m.contains_key("token"@),
        m.contains_key("session_id"@),
    ensures
        subst(template_text(Language::Kotlin), m) == Ok::<Seq<char>, SubstErr>(
            rendered_text(
                Language::Kotlin,
                m["room"@],
                m["url"@],
                m["api_key"@],
                m["token"@],
                m["session_id"@],
                m["api_key_var_name"@],
            ),
        ),
{
    reveal_strlit("{");
    reveal_strlit("}");
    reveal_strlit("room");
    reveal_strlit("url");
    reveal_strlit("api_key_var_name");
    reveal_strlit("api_key");
    reveal_strlit("token");
    reveal_strlit("session_id");
    reveal_strlit("//room: {room} ( {url} )\nval {api_key_var_name} = \"{api_key}\";\nval TOKEN = \"{token}\";\nval SESSION_ID = \"{session_id}\";\n");
    reveal_strlit("//room: ");
    reveal_strlit(" ( ");
    reveal_strlit(" )\nval ");
    reveal_strlit(" = \"");
    reveal_strlit("\";\nval TOKEN = \"");
    reveal_strlit("\";\nval SESSION_ID = \"");
    reveal_strlit("\";\n");
    assert(template_text(Language::Kotlin) =~= std_template(
        "//room: "@,
        " ( "@,
        " )\nval "@,
        " = \""@,
        "\";\nval TOKEN = \""@,
        "\";\nval SESSION_ID = \""@,
        "\";\n"@,
    ));
    lemma_subst_std(
        "//room: "@,
        " ( "@,
        " )\nval "@,
        " = \""@,
        "\";\nval TOKEN = \""@,
        "\";\nval SESSION_ID = \""@,
        "\";\n"@,
        m,
    );
}

#[verifier::spinoff_prover]
proof fn lemma_render_python(m: Map<Seq<char>, Seq<char>>)
    requires
        m.contains_key("room"@),
        m.contains_key("url"@),
        m.contains_key("api_key_var_name"@),
        m.contains_key("api_key"@),
        m.contains_key("token"@),
        m.contains_key("session_id"@),
    ensures
        subst(template_text(Language::Python), m) == Ok::<Seq<char>, SubstErr>(
            rendered_text(
                Language::Python,
                m["room"@],
                m["url"@],
                m["api_key"@],
                m["token"@],
                m["session_id"@],
                m["api_key_var_name"@],
            ),
        ),
{
    reveal_strlit("{");
    reveal_strlit("}");
    reveal_strlit("room");
    reveal_strlit("url");
    reveal_strlit("api_key_var_name");
    reveal_strlit("api_key");
    reveal_strlit("token");
    reveal_strlit("session_id");
    reveal_strlit("#room: {room} ( {url} )\n{api_key_var_name} = \"{api_key}\"\nTOKEN = \"{token}\"\nSESSION_ID = \"{session_id}\"\n");
    reveal_strlit("#room: ");
    reveal_strlit(" ( ");
    reveal_strlit(" )\n");
    reveal_strlit(" = \"");
    reveal_strlit("\"\nTOKEN = \"");
    reveal_strlit("\"\nSESSION_ID = \"");
    reveal_strlit("\"\n");
    assert(template_text(Language::Python) =~= std_template(
        "#room: "@,
        " ( "@,
        " )\n"@,
        " = \""@,
        "\"\nTOKEN = \""@,
        "\"\nSESSION_ID = \""@,
        "\"\n"@,
    ));
    lemma_subst_std(
        "#room: "@,
        " ( "@,
        " )\n"@,
        " = \""@,
        "\"\nTOKEN = \""@,
        "\"\nSESSION_ID = \""@,
        "\"\n"@,
        m,
    );
}

#[verifier::spinoff_prover]
proof fn lemma_render_csharp(m: Map<Seq<char>, Seq<char>>)
    requires
        m.contains_key("room"@),
        m.contains_key("url"@),
        m.contains_key("api_key_var_name"@),
        m.contains_key("api_key"@),
        m.contains_key("token"@),
        m.contains_key("session_id"@),
    ensures
        subst(template_text(Language::Csharp), m) == Ok::<Seq<char>, SubstErr>(
            rendered_text(
                Language::Csharp,
                m["room"@],
                m["url"@],
                m["api_key"@],
                m["token"@],
                m["session_id"@],
                m["api_key_var_name"@],
            ),
        ),
{
    reveal_strlit("{");
    reveal_strlit("}");
    reveal_strlit("room");
    reveal_strlit("url");
    reveal_strlit("api_key_var_name");
    reveal_strlit("api_key");
    reveal_strlit("token");
    reveal_strlit("session_id");
    reveal_strlit("//room: {room} ( {url} )\npublic string {api_key_var_name} = \"{api_key}\";\npublic string TOKEN = \"{token}\";\npublic string SESSION_ID = \"{session_id}\";\n");
    reveal_strlit("//room: ");
    reveal_strlit(" ( ");
    reveal_strlit(" )\npublic string ");
    reveal_strlit(" = \"");
    reveal_strlit("\";\npublic string TOKEN = \"");
    reveal_strlit("\";\npublic string SESSION_ID = \"");
    reveal_strlit("\";\n");
    assert(template_text(Language::Csharp) =~= std_template(
        "//room: "@,
        " ( "@,
        " )\npublic string "@,
        " = \""@,
        "\";\npublic string TOKEN = \""@,
        "\";\npublic string SESSION_ID = \""@,
        "\";\n"@,
    ));
    lemma_subst_std(
        "//room: "@,
        " ( "@,
        " )\npublic string "@,
        " = \""@,
        "\";\npublic string TOKEN = \""@,
        "\";\npublic string SESSION_ID = \""@,
        "\";\n"@,
        m,
    );
}

#[verifier::spinoff_prover]
proof fn lemma_render_javascript(m: Map<Seq<char>, Seq<char>>)
    requires
        m.contains_key("room"@),
        m.contains_key("url"@),
        m.contains_key("api_key_var_name"@),
        m.contains_key("api_key"@),
        m.contains_key("token"@),
        m.contains_key("session_id"@),
    ensures
        subst(template_text(Language::Javascript), m) == Ok::<Seq<char>, SubstErr>(
            rendered_text(
                Language::Javascript,
                m["room"@],
                m["url"@],
                m["api_key"@],
                m["token"@],
                m["session_id"@],
                m["api_key_var_name"@],
            ),
        ),
{
    reveal_strlit("{");
    reveal_strlit("}");
    reveal_strlit("room");
    reveal_strlit("url");
    reveal_strlit("api_key_var_name");
    reveal_strlit("api_key");
    reveal_strlit("token");
    reveal_strlit("session_id");
    reveal_strlit("//room: {room} ( {url} )\nconst {api_key_var_name} = \"{api_key}\";\nconst TOKEN = \"{token}\";\nconst SESSION_ID = \"{session_id}\";\n");
    reveal_strlit("//room: ");
    reveal_strlit(" ( ");
    reveal_strlit(" )\nconst ");
    reveal_strlit(" = \"");
    reveal_strlit("\";\nconst TOKEN = \"");
    reveal_strlit("\";\nconst SESSION_ID = \"");
    reveal_strlit("\";\n");
    assert(template_text(Language::Javascript) =~= std_template(
        "//room: "@,
        " ( "@,
        " )\nconst "@,
        " = \""@,
        "\";\nconst TOKEN = \""@,
        "\";\nconst SESSION_ID = \""@,
        "\";\n"@,
    ));
    lemma_subst_std(
        "//room: "@,
        " ( "@,
        " )\nconst "@,
        " = \""@,
        "\";\nconst TOKEN = \""@,
        "\";\nconst SESSION_ID = \""@,
        "\";\n"@,
        m,
    );
}

/// Rendering a dialect's template under bindings that cover room, url,
/// api_key_var_name, api_key, token and session_id always succeeds, and
/// yields exactly `rendered_text` of the bound values.
pub proof fn lemma_render_dialect(l: Language, m: Map<Seq<char>, Seq<char>>)
    requires
        m.contains_key("room"@),
        m.contains_key("url"@),
        m.contains_key("api_key_var_name"@),
        m.contains_key("api_key"@),
        m.contains_key("token"@),
        m.contains_key("session_id"@),
    ensures
        subst(template_text(l), m) == Ok::<Seq<char>, SubstErr>(
            rendered_text(
                l,
                m["room"@],
                m["url"@],
                m["api_key"@],
                m["token"@],
                m["session_id"@],
                m["api_key_var_name"@],
            ),
        ),
{
    match l {
        Language::ObjC => lemma_render_objc(m),
        Language::Swift => lemma_render_swift(m),
        Language::Java => lemma_render_java(m),
        Language::Kotlin => lemma_render_kotlin(m),
        Language::Python => lemma_render_python(m),
        Language::FakePublisher => lemma_render_fake_publisher(m),
        Language::Csharp => lemma_render_csharp(m),
        Language::Javascript => lemma_render_javascript(m),
    }
}

} // verus!
