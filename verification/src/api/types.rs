//! The payloads that the API returns about a user. The client passes them
//! through: it asks no more of them than that they have their shape.

use crate::json::{
    member_doc, read_member, read_text, read_u32, text_at, u32_at, FromJson, JsonDoc,
};
use vstd::prelude::*;

verus! {

#[derive(Debug)]
pub struct ApiUser {
    pub id: String,
    pub email: String,
    pub character: ApiCharacter,
    /// The member `createdAt`.
    pub created_at: String,
    /// The member `updatedAt`.
    pub updated_at: String,
}

#[derive(Debug)]
pub struct ApiCharacter {
    pub name: String,
    pub money: u32,
}

pub struct ApiUserView {
    pub id: Seq<char>,
    pub email: Seq<char>,
    pub character: ApiCharacterView,
    pub created_at: Seq<char>,
    pub updated_at: Seq<char>,
}

pub struct ApiCharacterView {
    pub name: Seq<char>,
    pub money: u32,
}

impl View for ApiCharacter {
    type V = ApiCharacterView;

    open spec fn view(&self) -> ApiCharacterView {
        ApiCharacterView { name: self.name@, money: self.money }
    }
}

impl View for ApiUser {
    type V = ApiUserView;

    open spec fn view(&self) -> ApiUserView {
        ApiUserView {
            id: self.id@,
            email: self.email@,
            character: self.character@,
            created_at: self.created_at@,
            updated_at: self.updated_at@,
        }
    }
}

impl FromJson for ApiCharacter {
    /// A character is an object with the string `name` and the 32-bit
    /// unsigned integer `money`.
    open spec fn in_doc(doc: JsonDoc) -> Option<ApiCharacterView> {
        match (text_at(doc, seq!["name"@]), u32_at(doc, seq!["money"@])) {
            (Some(name), Some(money)) => Some(ApiCharacterView { name, money }),
            _ => None,
        }
    }

    fn from_json(value: &serde_json::Value) -> (decoded: Option<ApiCharacter>) {
        let name = read_text(value, "name");
        let money = read_u32(value, "money");
        match (name, money) {
            (Some(name), Some(money)) => Some(ApiCharacter { name, money }),
            _ => None,
        }
    }

    proof fn lemma_empty_doc_holds_none() {
    }
}

impl FromJson for ApiUser {
    /// A user is an object with the strings `id`, `email`, `createdAt` and
    /// `updatedAt` and the character `character`.
    open spec fn in_doc(doc: JsonDoc) -> Option<ApiUserView> {
        match (
            text_at(doc, seq!["id"@]),
            text_at(doc, seq!["email"@]),
            ApiCharacter::in_doc(member_doc(doc, "character"@)),
            text_at(doc, seq!["createdAt"@]),
            text_at(doc, seq!["updatedAt"@]),
        ) {
            (Some(id), Some(email), Some(character), Some(created_at), Some(updated_at)) => Some(
                ApiUserView { id, email, character, created_at, updated_at },
            ),
            _ => None,
        }
    }

    fn from_json(value: &serde_json::Value) -> (decoded: Option<ApiUser>) {
        let id = read_text(value, "id");
        let email = read_text(value, "email");
        let character = read_member::<ApiCharacter>(value, "character");
        let created_at = read_text(value, "createdAt");
        let updated_at = read_text(value, "updatedAt");
        match (id, email, character, created_at, updated_at) {
            (Some(id), Some(email), Some(character), Some(created_at), Some(updated_at)) => Some(
                ApiUser { id, email, character, created_at, updated_at },
            ),
            _ => None,
        }
    }

    proof fn lemma_empty_doc_holds_none() {
    }
}

} // verus!
