use vstd::prelude::*;

use crate::ids::UserId;
use crate::json::{
    add_member, lemma_member_at, Codec, RoundTrip, new_members, object, opt_str_field, optional_string_field,
    str_field, str_or_null, string_field, string_or_null, text_is, Json, JsonValue,
};

verus! {

/// What every kind of user has.
#[derive(Clone, Debug, PartialEq, Eq)]
pub struct UserCommon {
    pub id: UserId,
    pub name: Option<String>,
    pub avatar_url: Option<String>,
}

#[derive(Clone, Debug, PartialEq, Eq)]
pub struct Person {
    pub email: Option<String>,
}

#[derive(Clone, Debug, PartialEq, Eq)]
pub struct Bot {
    pub email: Option<String>,
}

/// A user, told apart on the wire by its `object` member.
#[derive(Clone, Debug, PartialEq, Eq)]
pub enum User {
    Person { common: UserCommon, person: Person },
    Bot { common: UserCommon, bot: Bot },
    User { common: UserCommon, person: Option<Person> },
}

pub struct UserCommonModel {
    pub id: Seq<char>,
    pub name: Option<Seq<char>>,
    pub avatar_url: Option<Seq<char>>,
}

/// The model of a [`User`]; a person or a bot is modelled by its email.
pub enum UserModel {
    Person { common: UserCommonModel, email: Option<Seq<char>> },
    Bot { common: UserCommonModel, email: Option<Seq<char>> },
    User { common: UserCommonModel, person: Option<Option<Seq<char>>> },
}

impl DeepView for UserCommon {
    type V = UserCommonModel;

    open spec fn deep_view(&self) -> UserCommonModel {
        UserCommonModel {
            id: self.id.deep_view(),
            name: self.name.deep_view(),
            avatar_url: self.avatar_url.deep_view(),
        }
    }
}

impl DeepView for Person {
    type V = Option<Seq<char>>;

    open spec fn deep_view(&self) -> Option<Seq<char>> {
        self.email.deep_view()
    }
}

impl DeepView for User {
    type V = UserModel;

    open spec fn deep_view(&self) -> UserModel {
        match self {
            User::Person { common, person } => UserModel::Person {
                common: common.deep_view(),
                email: person.email.deep_view(),
            },
            User::Bot { common, bot } => UserModel::Bot {
                common: common.deep_view(),
                email: bot.email.deep_view(),
            },
            User::User { common, person } => UserModel::User {
                common: common.deep_view(),
                person: person.deep_view(),
            },
        }
    }
}

/// The object that holds only an email.
pub open spec fn enc_email(email: Option<Seq<char>>) -> Json {
    Json::Object(seq![("email"@, str_or_null(email))])
}

/// Reading an object that holds an optional email.
pub open spec fn dec_email(j: Json) -> Option<Option<Seq<char>>> {
    match j {
        Json::Object(_) => opt_str_field(j, "email"@),
        _ => None,
    }
}

/// The wire form of a user: its kind under `object`, the common members, and
/// the member of its kind.
pub open spec fn enc_user(u: UserModel) -> Json {
    let (tag, c, key, inner) = match u {
        UserModel::Person { common, email } => ("person"@, common, "person"@, enc_email(email)),
        UserModel::Bot { common, email } => ("bot"@, common, "bot"@, enc_email(email)),
        UserModel::User { common, person } => (
            "user"@,
            common,
            "person"@,
            match person {
                Some(email) => enc_email(email),
                None => Json::Null,
            },
        ),
    };
    Json::Object(
        seq![
            ("object"@, Json::Str(tag)),
            ("id"@, Json::Str(c.id)),
            ("name"@, str_or_null(c.name)),
            ("avatar_url"@, str_or_null(c.avatar_url)),
            (key, inner),
        ],
    )
}

pub open spec fn dec_user_common(j: Json) -> Option<UserCommonModel> {
    match (str_field(j, "id"@), opt_str_field(j, "name"@), opt_str_field(j, "avatar_url"@)) {
        (Some(id), Some(name), Some(avatar_url)) => Some(
            UserCommonModel { id, name, avatar_url },
        ),
        _ => None,
    }
}

/// Reading a user: `object` says which kind; a person or a bot must carry
/// its member, a plain user may leave `person` out or `null`.
pub open spec fn dec_user(j: Json) -> Option<UserModel> {
    match (str_field(j, "object"@), dec_user_common(j)) {
        (Some(tag), Some(common)) => if tag == "person"@ {
            match j.field("person"@) {
                Some(p) => match dec_email(p) {
                    Some(email) => Some(UserModel::Person { common, email }),
                    None => None,
                },
                None => None,
            }
        } else if tag == "bot"@ {
            match j.field("bot"@) {
                Some(b) => match dec_email(b) {
                    Some(email) => Some(UserModel::Bot { common, email }),
                    None => None,
                },
                None => None,
            }
        } else if tag == "user"@ {
            match j.field("person"@) {
                None => Some(UserModel::User { common, person: None }),
                Some(Json::Null) => Some(UserModel::User { common, person: None }),
                Some(p) => match dec_email(p) {
                    Some(email) => Some(UserModel::User { common, person: Some(email) }),
                    None => None,
                },
            }
        } else {
            None
        },
        _ => None,
    }
}

/// Reading back the wire form of a user gives the user.
pub proof fn lemma_user_round_trip(u: UserModel)
    ensures
        dec_user(enc_user(u)) == Some(u),
{
    reveal_strlit("object");
    reveal_strlit("id");
    reveal_strlit("name");
    reveal_strlit("avatar_url");
    reveal_strlit("person");
    reveal_strlit("bot");
    reveal_strlit("user");
    reveal_strlit("email");
    let j = enc_user(u);
    let ms = j->Object_0;
    assert("object"@.len() == 6 && "id"@.len() == 2 && "name"@.len() == 4);
    assert("avatar_url"@.len() == 10 && "person"@.len() == 6 && "bot"@.len() == 3);
    assert("object"@[0] == 'o' && "person"@[0] == 'p');
    lemma_member_at(ms, 0);
    lemma_member_at(ms, 1);
    lemma_member_at(ms, 2);
    lemma_member_at(ms, 3);
    lemma_member_at(ms, 4);
    let email = match u {
        UserModel::Person { email, .. } => Some(email),
        UserModel::Bot { email, .. } => Some(email),
        UserModel::User { person, .. } => person,
    };
    if let Some(e) = email {
        lemma_member_at(enc_email(e)->Object_0, 0);
    }
}

/// The members of an object that holds only an email.
fn encode_email(email: &Option<String>) -> (r: JsonValue)
    ensures
        r@ == enc_email(email.deep_view()),
{
    let mut ms = new_members();
    add_member(&mut ms, "email", string_or_null(email));
    let r = object(ms);
    assert(r@->Object_0 =~= enc_email(email.deep_view())->Object_0);
    r
}

fn decode_email(j: &JsonValue) -> (r: Option<Option<String>>)
    ensures
        r.deep_view() == dec_email(j@),
{
    match j {
        JsonValue::Object(_) => optional_string_field(j, "email"),
        _ => None,
    }
}

impl UserCommon {
    pub fn decode(j: &JsonValue) -> (r: Option<UserCommon>)
        ensures
            r.deep_view() == dec_user_common(j@),
    {
        let id = string_field(j, "id")?;
        let name = optional_string_field(j, "name")?;
        let avatar_url = optional_string_field(j, "avatar_url")?;
        Some(UserCommon { id: UserId(id), name, avatar_url })
    }
}

impl User {
    /// The members that every kind of user has.
    pub fn to_common(&self) -> (r: &UserCommon)
        ensures
            r == match self {
                User::Person { common, .. } => common,
                User::Bot { common, .. } => common,
                User::User { common, .. } => common,
            },
    {
        match self {
            User::Person { common, person: _ } => common,
            User::Bot { common, bot: _ } => common,
            User::User { common, person: _ } => common,
        }
    }

}

impl Codec for User {
    open spec fn enc_spec(m: UserModel) -> Json {
        enc_user(m)
    }

    open spec fn dec_spec(j: Json) -> Option<UserModel> {
        dec_user(j)
    }

    open spec fn in_range(m: UserModel) -> bool {
        true
    }

    fn encode(&self) -> (r: JsonValue) {
        proof {
            <User as RoundTrip>::lemma_round_trip(self.deep_view());
        }
        let (tag, key, inner) = match self {
            User::Person { person, .. } => ("person", "person", encode_email(&person.email)),
            User::Bot { bot, .. } => ("bot", "bot", encode_email(&bot.email)),
            User::User { person, .. } => (
                "user",
                "person",
                match person {
                    Some(p) => encode_email(&p.email),
                    None => JsonValue::Null,
                },
            ),
        };
        let common = self.to_common();
        let mut ms = new_members();
        add_member(&mut ms, "object", JsonValue::String(tag.to_owned()));
        add_member(&mut ms, "id", common.id.encode());
        add_member(&mut ms, "name", string_or_null(&common.name));
        add_member(&mut ms, "avatar_url", string_or_null(&common.avatar_url));
        add_member(&mut ms, key, inner);
        let r = object(ms);
        assert(r@->Object_0 =~= enc_user(self.deep_view())->Object_0);
        r
    }

    fn decode(j: &JsonValue) -> (r: Option<User>) {
        let tag = string_field(j, "object")?;
        let common = UserCommon::decode(j)?;
        if text_is(&tag, "person") {
            let email = decode_email(j.field("person")?)?;
            Some(User::Person { common, person: Person { email } })
        } else if text_is(&tag, "bot") {
            let email = decode_email(j.field("bot")?)?;
            Some(User::Bot { common, bot: Bot { email } })
        } else if text_is(&tag, "user") {
            match j.field("person") {
                None => Some(User::User { common, person: None }),
                Some(JsonValue::Null) => Some(User::User { common, person: None }),
                Some(p) => {
                    let email = decode_email(p)?;
                    Some(User::User { common, person: Some(Person { email }) })
                },
            }
        } else {
            None
        }
    }
}

impl RoundTrip for User {
    proof fn lemma_round_trip(m: UserModel) {
        lemma_user_round_trip(m);
    }
}

} // verus!
