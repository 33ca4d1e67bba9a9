use vstd::prelude::*;

use crate::json::{
    add_member, bool_or_null, Codec, RoundTrip, boolean_or_null, lemma_member_at, new_members, object,
    opt_bool_field, opt_str_field, optional_bool_field, optional_string_field, str_field,
    str_or_null, string_field, string_or_null, text_is, Json, JsonValue,
};

verus! {

/// How a span of text is set.
#[derive(Clone, Copy, Debug, PartialEq, Eq)]
pub struct Annotations {
    pub bold: Option<bool>,
    pub italic: Option<bool>,
    pub strikethrough: Option<bool>,
    pub underline: Option<bool>,
    pub code: Option<bool>,
}

#[derive(Clone, Debug, PartialEq, Eq)]
pub struct Link {
    pub url: String,
}

#[derive(Clone, Debug, PartialEq, Eq)]
pub struct Text {
    pub content: String,
    pub link: Option<Link>,
}

#[derive(Clone, Debug, PartialEq, Eq)]
pub struct Equation {
    pub expression: String,
}

/// What every span of rich text has.
#[derive(Clone, Debug, PartialEq, Eq)]
pub struct RichTextCommon {
    pub plain_text: String,
    pub href: Option<String>,
    pub annotations: Option<Annotations>,
}

/// A span of rich text, told apart on the wire by its `type` member.
#[derive(Clone, Debug, PartialEq, Eq)]
pub enum RichText {
    Text { rich_text: RichTextCommon, text: Text },
    Equation { rich_text: RichTextCommon, equation: Equation },
}

pub struct RichTextCommonModel {
    pub plain_text: Seq<char>,
    pub href: Option<Seq<char>>,
    pub annotations: Option<Annotations>,
}

/// The model of a [`RichText`]; a link is modelled by its url.
pub enum RichTextModel {
    Text { common: RichTextCommonModel, content: Seq<char>, link: Option<Seq<char>> },
    Equation { common: RichTextCommonModel, expression: Seq<char> },
}

impl RichTextModel {
    pub open spec fn common(self) -> RichTextCommonModel {
        match self {
            RichTextModel::Text { common, .. } => common,
            RichTextModel::Equation { common, .. } => common,
        }
    }
}

impl DeepView for Annotations {
    type V = Annotations;

    open spec fn deep_view(&self) -> Annotations {
        *self
    }
}

impl DeepView for Link {
    type V = Seq<char>;

    open spec fn deep_view(&self) -> Seq<char> {
        self.url@
    }
}

impl DeepView for RichTextCommon {
    type V = RichTextCommonModel;

    open spec fn deep_view(&self) -> RichTextCommonModel {
        RichTextCommonModel {
            plain_text: self.plain_text@,
            href: self.href.deep_view(),
            annotations: self.annotations,
        }
    }
}

impl DeepView for RichText {
    type V = RichTextModel;

    open spec fn deep_view(&self) -> RichTextModel {
        match self {
            RichText::Text { rich_text, text } => RichTextModel::Text {
                common: rich_text.deep_view(),
                content: text.content@,
                link: text.link.deep_view(),
            },
            RichText::Equation { rich_text, equation } => RichTextModel::Equation {
                common: rich_text.deep_view(),
                expression: equation.expression@,
            },
        }
    }
}

pub open spec fn enc_annotations(a: Annotations) -> Json {
    Json::Object(
        seq![
            ("bold"@, bool_or_null(a.bold)),
            ("italic"@, bool_or_null(a.italic)),
            ("strikethrough"@, bool_or_null(a.strikethrough)),
            ("underline"@, bool_or_null(a.underline)),
            ("code"@, bool_or_null(a.code)),
        ],
    )
}

pub open spec fn dec_annotations(j: Json) -> Option<Annotations> {
    match (
        j,
        opt_bool_field(j, "bold"@),
        opt_bool_field(j, "italic"@),
        opt_bool_field(j, "strikethrough"@),
        opt_bool_field(j, "underline"@),
        opt_bool_field(j, "code"@),
    ) {
        (
            Json::Object(_),
            Some(bold),
            Some(italic),
            Some(strikethrough),
            Some(underline),
            Some(code),
        ) => Some(Annotations { bold, italic, strikethrough, underline, code }),
        _ => None,
    }
}

pub open spec fn enc_link(link: Option<Seq<char>>) -> Json {
    match link {
        Some(url) => Json::Object(seq![("url"@, Json::Str(url))]),
        None => Json::Null,
    }
}

/// The wire form of a span: its kind under `type`, the common members, and
/// the member of its kind.
pub open spec fn enc_rich_text(t: RichTextModel) -> Json {
    let (tag, c, inner) = match t {
        RichTextModel::Text { common, content, link } => (
            "text"@,
            common,
            Json::Object(seq![("content"@, Json::Str(content)), ("link"@, enc_link(link))]),
        ),
        RichTextModel::Equation { common, expression } => (
            "equation"@,
            common,
            Json::Object(seq![("expression"@, Json::Str(expression))]),
        ),
    };
    Json::Object(
        seq![
            ("type"@, Json::Str(tag)),
            ("plain_text"@, Json::Str(c.plain_text)),
            ("href"@, str_or_null(c.href)),
            (
                "annotations"@,
                match c.annotations {
                    Some(a) => enc_annotations(a),
                    None => Json::Null,
                },
            ),
            (tag, inner),
        ],
    )
}

pub open spec fn dec_rich_text_common(j: Json) -> Option<RichTextCommonModel> {
    match (str_field(j, "plain_text"@), opt_str_field(j, "href"@)) {
        (Some(plain_text), Some(href)) => match j.field("annotations"@) {
            None => Some(RichTextCommonModel { plain_text, href, annotations: None }),
            Some(Json::Null) => Some(RichTextCommonModel { plain_text, href, annotations: None }),
            Some(a) => match dec_annotations(a) {
                Some(x) => Some(RichTextCommonModel { plain_text, href, annotations: Some(x) }),
                None => None,
            },
        },
        _ => None,
    }
}

pub open spec fn dec_link(j: Json) -> Option<Option<Seq<char>>> {
    match j {
        Json::Null => Some(None),
        Json::Object(_) => match str_field(j, "url"@) {
            Some(url) => Some(Some(url)),
            None => None,
        },
        _ => None,
    }
}

/// Reading a span: `type` says which kind, and the member of that name holds
/// its content.
pub open spec fn dec_rich_text(j: Json) -> Option<RichTextModel> {
    match (str_field(j, "type"@), dec_rich_text_common(j)) {
        (Some(tag), Some(common)) => if tag == "text"@ {
            match j.field("text"@) {
                Some(t) => match (t, str_field(t, "content"@)) {
                    (Json::Object(_), Some(content)) => match t.field("link"@) {
                        None => Some(RichTextModel::Text { common, content, link: None }),
                        Some(l) => match dec_link(l) {
                            Some(link) => Some(RichTextModel::Text { common, content, link }),
                            None => None,
                        },
                    },
                    _ => None,
                },
                None => None,
            }
        } else if tag == "equation"@ {
            match j.field("equation"@) {
                Some(e) => match str_field(e, "expression"@) {
                    Some(expression) => Some(RichTextModel::Equation { common, expression }),
                    None => None,
                },
                None => None,
            }
        } else {
            None
        },
        _ => None,
    }
}

/// Reading back the wire form of a span gives the span.
pub proof fn lemma_rich_text_round_trip(t: RichTextModel)
    ensures
        dec_rich_text(enc_rich_text(t)) == Some(t),
{
    reveal_strlit("type");
    reveal_strlit("plain_text");
    reveal_strlit("href");
    reveal_strlit("annotations");
    reveal_strlit("text");
    reveal_strlit("equation");
    reveal_strlit("content");
    reveal_strlit("link");
    reveal_strlit("bold");
    reveal_strlit("italic");
    reveal_strlit("strikethrough");
    reveal_strlit("underline");
    reveal_strlit("code");
    assert("type"@.len() == 4 && "plain_text"@.len() == 10 && "href"@.len() == 4);
    assert("annotations"@.len() == 11 && "text"@.len() == 4 && "equation"@.len() == 8);
    assert("type"@[0] == 't' && "href"@[0] == 'h' && "text"@[1] == 'e' && "type"@[1] == 'y');
    assert("content"@.len() == 7 && "link"@.len() == 4);
    assert("bold"@.len() == 4 && "italic"@.len() == 6 && "strikethrough"@.len() == 13);
    assert("underline"@.len() == 9 && "code"@.len() == 4);
    assert("bold"@[0] == 'b' && "code"@[0] == 'c');
    let ms = enc_rich_text(t)->Object_0;
    lemma_member_at(ms, 0);
    lemma_member_at(ms, 1);
    lemma_member_at(ms, 2);
    lemma_member_at(ms, 3);
    lemma_member_at(ms, 4);
    match t {
        RichTextModel::Text { common, content, link } => {
            let inner = ms[4].1->Object_0;
            lemma_member_at(inner, 0);
            lemma_member_at(inner, 1);
            if let Some(url) = link {
                lemma_member_at(enc_link(link)->Object_0, 0);
            }
        },
        RichTextModel::Equation { .. } => {
            lemma_member_at(ms[4].1->Object_0, 0);
        },
    }
    if let Some(a) = t.common().annotations {
        let am = enc_annotations(a)->Object_0;
        lemma_member_at(am, 0);
        lemma_member_at(am, 1);
        lemma_member_at(am, 2);
        lemma_member_at(am, 3);
        lemma_member_at(am, 4);
    }
}

impl Annotations {
    pub fn encode(&self) -> (r: JsonValue)
        ensures
            r@ == enc_annotations(*self),
    {
        let mut ms = new_members();
        add_member(&mut ms, "bold", boolean_or_null(self.bold));
        add_member(&mut ms, "italic", boolean_or_null(self.italic));
        add_member(&mut ms, "strikethrough", boolean_or_null(self.strikethrough));
        add_member(&mut ms, "underline", boolean_or_null(self.underline));
        add_member(&mut ms, "code", boolean_or_null(self.code));
        let r = object(ms);
        assert(r@->Object_0 =~= enc_annotations(*self)->Object_0);
        r
    }

    pub fn decode(j: &JsonValue) -> (r: Option<Annotations>)
        ensures
            r == dec_annotations(j@),
    {
        match j {
            JsonValue::Object(_) => {
                let bold = optional_bool_field(j, "bold")?;
                let italic = optional_bool_field(j, "italic")?;
                let strikethrough = optional_bool_field(j, "strikethrough")?;
                let underline = optional_bool_field(j, "underline")?;
                let code = optional_bool_field(j, "code")?;
                Some(Annotations { bold, italic, strikethrough, underline, code })
            },
            _ => None,
        }
    }
}

impl RichTextCommon {
    pub fn decode(j: &JsonValue) -> (r: Option<RichTextCommon>)
        ensures
            r.deep_view() == dec_rich_text_common(j@),
    {
        let plain_text = string_field(j, "plain_text")?;
        let href = optional_string_field(j, "href")?;
        let annotations = match j.field("annotations") {
            None => None,
            Some(JsonValue::Null) => None,
            Some(a) => Some(Annotations::decode(a)?),
        };
        Some(RichTextCommon { plain_text, href, annotations })
    }
}

fn decode_link(j: &JsonValue) -> (r: Option<Option<Link>>)
    ensures
        r.deep_view() == dec_link(j@),
{
    match j {
        JsonValue::Null => Some(None),
        JsonValue::Object(_) => {
            let url = string_field(j, "url")?;
            Some(Some(Link { url }))
        },
        _ => None,
    }
}

fn encode_link(link: &Option<Link>) -> (r: JsonValue)
    ensures
        r@ == enc_link(link.deep_view()),
{
    match link {
        Some(l) => {
            let mut ms = new_members();
            add_member(&mut ms, "url", JsonValue::String(l.url.clone()));
            let r = object(ms);
            assert(r@->Object_0 =~= enc_link(link.deep_view())->Object_0);
            r
        },
        None => JsonValue::Null,
    }
}

impl RichText {
    /// The text of the span without its formatting.
    pub fn plain_text(&self) -> (r: &str)
        ensures
            r@ == self.deep_view().common().plain_text,
    {
        match self {
            RichText::Text { rich_text, .. } => rich_text.plain_text.as_str(),
            RichText::Equation { rich_text, .. } => rich_text.plain_text.as_str(),
        }
    }

}

impl Codec for RichText {
    open spec fn enc_spec(m: RichTextModel) -> Json {
        enc_rich_text(m)
    }

    open spec fn dec_spec(j: Json) -> Option<RichTextModel> {
        dec_rich_text(j)
    }

    open spec fn in_range(m: RichTextModel) -> bool {
        true
    }

    fn encode(&self) -> (r: JsonValue) {
        proof {
            <RichText as RoundTrip>::lemma_round_trip(self.deep_view());
        }
        let (tag, common, inner) = match self {
            RichText::Text { rich_text, text } => {
                let mut ims = new_members();
                add_member(&mut ims, "content", JsonValue::String(text.content.clone()));
                add_member(&mut ims, "link", encode_link(&text.link));
                let inner = object(ims);
                assert(inner@->Object_0 =~= seq![
                    ("content"@, Json::Str(text.content@)),
                    ("link"@, enc_link(text.link.deep_view())),
                ]);
                ("text", rich_text, inner)
            },
            RichText::Equation { rich_text, equation } => {
                let mut ims = new_members();
                add_member(&mut ims, "expression", JsonValue::String(equation.expression.clone()));
                let inner = object(ims);
                assert(inner@->Object_0 =~= seq![("expression"@, Json::Str(equation.expression@))]);
                ("equation", rich_text, inner)
            },
        };
        let mut ms = new_members();
        add_member(&mut ms, "type", JsonValue::String(tag.to_owned()));
        add_member(&mut ms, "plain_text", JsonValue::String(common.plain_text.clone()));
        add_member(&mut ms, "href", string_or_null(&common.href));
        let annotations = match &common.annotations {
            Some(a) => a.encode(),
            None => JsonValue::Null,
        };
        add_member(&mut ms, "annotations", annotations);
        add_member(&mut ms, tag, inner);
        let r = object(ms);
        assert(r@->Object_0 =~= enc_rich_text(self.deep_view())->Object_0);
        r
    }

    fn decode(j: &JsonValue) -> (r: Option<RichText>) {
        let tag = string_field(j, "type")?;
        let rich_text = RichTextCommon::decode(j)?;
        if text_is(&tag, "text") {
            let t = j.field("text")?;
            match t {
                JsonValue::Object(_) => {
                    let content = string_field(t, "content")?;
                    let link = match t.field("link") {
                        None => None,
                        Some(l) => decode_link(l)?,
                    };
                    Some(RichText::Text { rich_text, text: Text { content, link } })
                },
                _ => None,
            }
        } else if text_is(&tag, "equation") {
            let e = j.field("equation")?;
            let expression = string_field(e, "expression")?;
            Some(RichText::Equation { rich_text, equation: Equation { expression } })
        } else {
            None
        }
    }
}

impl RoundTrip for RichText {
    proof fn lemma_round_trip(m: RichTextModel) {
        lemma_rich_text_round_trip(m);
    }
}

} // verus!
