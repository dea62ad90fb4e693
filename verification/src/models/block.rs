//! Blocks and their parents.

use crate::json::{
    json_object, json_text, json_view, new_json_object, set_json_field, JsonFields,
    JsonResult, JsonView,
};
use crate::models::ids::{
    fresh_uuid, now, timestamp_json, timestamp_json_view, uuid_json, uuid_text, Timestamp,
};
use vstd::prelude::*;

verus! {

/// What a block lives in: another block or a domain.
#[derive(Clone, Debug)]
pub enum Parent {
    /// The block lives in the block with this identifier.
    Block(uuid::Uuid),
    /// The block lives in the domain with this identifier.
    Domain(uuid::Uuid),
}

/// The fields of a parent in JSON: a tag that says what the parent is,
/// and the parent's identifier under the key that goes with the tag.
pub open spec fn parent_fields(parent: Parent) -> JsonFields {
    match parent {
        Parent::Block(id) => JsonFields::empty().insert(
            "type"@,
            JsonView::Text("block"@),
        ).insert("block_uuid"@, JsonView::Text(uuid_text(id))),
        Parent::Domain(id) => JsonFields::empty().insert(
            "type"@,
            JsonView::Text("domain"@),
        ).insert("domain_uuid"@, JsonView::Text(uuid_text(id))),
    }
}

/// A parent in JSON holds its tag under `type` and its identifier under
/// exactly one of `block_uuid` and `domain_uuid`: the one that goes with
/// the tag. It holds no other key.
pub proof fn lemma_parent_is_tagged(parent: Parent)
    ensures
        parent_fields(parent).dom().contains("type"@),
        parent_fields(parent).dom().contains("block_uuid"@) != parent_fields(
            parent,
        ).dom().contains("domain_uuid"@),
        parent matches Parent::Block(id) ==> parent_fields(parent)["type"@] == JsonView::Text(
            "block"@,
        ) && parent_fields(parent)["block_uuid"@] == JsonView::Text(uuid_text(id)),
        parent matches Parent::Domain(id) ==> parent_fields(parent)["type"@] == JsonView::Text(
            "domain"@,
        ) && parent_fields(parent)["domain_uuid"@] == JsonView::Text(uuid_text(id)),
        forall|key: Seq<char>| #[trigger]
            parent_fields(parent).dom().contains(key) ==> key == "type"@ || key == "block_uuid"@
                || key == "domain_uuid"@,
{
    reveal_strlit("type");
    reveal_strlit("block_uuid");
    reveal_strlit("domain_uuid");
    assert("type"@.len() == 4);
    assert("block_uuid"@.len() == 10);
    assert("domain_uuid"@.len() == 11);
}

impl Parent {
    /// The parent of a stored block, from the two columns that may name
    /// it. Exactly one of the two holds an identifier.
    pub fn from_columns(domain_id: Option<uuid::Uuid>, block_id: Option<uuid::Uuid>) -> (parent:
        Parent)
        requires
            domain_id is Some != block_id is Some,
        ensures
            domain_id matches Some(id) ==> parent == Parent::Domain(id),
            block_id matches Some(id) ==> parent == Parent::Block(id),
    {
        match (domain_id, block_id) {
            (Some(id), _) => Parent::Domain(id),
            (None, Some(id)) => Parent::Block(id),
            (None, None) => vstd::pervasive::unreached(),
        }
    }

    /// The parent as a JSON object with a tag.
    pub fn to_json(&self) -> (made: JsonResult)
        ensures
            made is Ok,
            made matches Ok(value) ==> json_view(value) == JsonView::Object(parent_fields(*self)),
    {
        let mut object = new_json_object();
        match self {
            Parent::Block(id) => {
                set_json_field(&mut object, "type", json_text("block".to_owned()));
                match uuid_json(id) {
                    Ok(value) => set_json_field(&mut object, "block_uuid", value),
                    Err(error) => return Err(error),
                }
            },
            Parent::Domain(id) => {
                set_json_field(&mut object, "type", json_text("domain".to_owned()));
                match uuid_json(id) {
                    Ok(value) => set_json_field(&mut object, "domain_uuid", value),
                    Err(error) => return Err(error),
                }
            },
        }
        Ok(json_object(object))
    }
}

/// A named block inside a domain or inside another block.
#[derive(Clone, Debug)]
pub struct Block {
    /// The identifier of the block.
    pub id: uuid::Uuid,
    /// What the block lives in.
    pub parent: Parent,
    /// The name by which the block is looked up.
    pub name: String,
    /// When the block was created.
    pub created_at: Timestamp,
    /// When the block was last changed.
    pub updated_at: Timestamp,
}

/// The fields of a block in JSON.
pub open spec fn block_fields(block: Block) -> JsonFields {
    JsonFields::empty().insert("id"@, JsonView::Text(uuid_text(block.id))).insert(
        "parent"@,
        JsonView::Object(parent_fields(block.parent)),
    ).insert("name"@, JsonView::Text(block.name@)).insert(
        "created_at"@,
        timestamp_json_view(block.created_at.seconds, block.created_at.nanoseconds),
    ).insert(
        "updated_at"@,
        timestamp_json_view(block.updated_at.seconds, block.updated_at.nanoseconds),
    )
}

/// A block in JSON holds its identifier under `id` and its parent, as a
/// tagged object, under `parent`.
pub proof fn lemma_block_json_holds_id_and_parent(block: Block)
    ensures
        block_fields(block).dom().contains("id"@),
        block_fields(block)["id"@] == JsonView::Text(uuid_text(block.id)),
        block_fields(block).dom().contains("parent"@),
        block_fields(block)["parent"@] == JsonView::Object(parent_fields(block.parent)),
{
    reveal_strlit("id");
    reveal_strlit("parent");
    reveal_strlit("name");
    reveal_strlit("created_at");
    reveal_strlit("updated_at");
    assert("id"@.len() == 2);
    assert("parent"@.len() == 6);
    assert("name"@.len() == 4);
    assert("created_at"@.len() == 10);
    assert("updated_at"@.len() == 10);
}

impl Block {
    /// A builder for a new block.
    pub fn builder() -> (builder: BlockBuilder)
        ensures
            builder.parent is None,
            builder.name is None,
    {
        BlockBuilder::default()
    }

    /// A stored block, from the columns of its row. Exactly one of
    /// `domain_id` and `block_id` holds an identifier.
    pub fn from_columns(
        id: uuid::Uuid,
        name: String,
        created_at: Timestamp,
        updated_at: Timestamp,
        domain_id: Option<uuid::Uuid>,
        block_id: Option<uuid::Uuid>,
    ) -> (block: Block)
        requires
            domain_id is Some != block_id is Some,
        ensures
            block.id == id,
            block.name == name,
            block.created_at == created_at,
            block.updated_at == updated_at,
            domain_id matches Some(parent) ==> block.parent == Parent::Domain(parent),
            block_id matches Some(parent) ==> block.parent == Parent::Block(parent),
    {
        let parent = Parent::from_columns(domain_id, block_id);
        Block { id, parent, name, created_at, updated_at }
    }

    /// The block as a JSON object.
    pub fn to_json(&self) -> (made: JsonResult)
        ensures
            made is Ok,
            made matches Ok(value) ==> json_view(value) == JsonView::Object(block_fields(*self)),
    {
        let mut object = new_json_object();
        match uuid_json(&self.id) {
            Ok(value) => set_json_field(&mut object, "id", value),
            Err(error) => return Err(error),
        }
        match self.parent.to_json() {
            Ok(value) => set_json_field(&mut object, "parent", value),
            Err(error) => return Err(error),
        }
        set_json_field(&mut object, "name", json_text(self.name.clone()));
        match timestamp_json(self.created_at.seconds, self.created_at.nanoseconds) {
            Ok(value) => set_json_field(&mut object, "created_at", value),
            Err(error) => return Err(error),
        }
        match timestamp_json(self.updated_at.seconds, self.updated_at.nanoseconds) {
            Ok(value) => set_json_field(&mut object, "updated_at", value),
            Err(error) => return Err(error),
        }
        Ok(json_object(object))
    }
}

/// Collects what a new block needs: a parent and a name.
#[derive(Clone, Debug)]
pub struct BlockBuilder {
    /// The parent, once one was given.
    pub parent: Option<Parent>,
    /// The name, once one was given.
    pub name: Option<String>,
}

impl Default for BlockBuilder {
    fn default() -> (builder: Self)
        ensures
            builder.parent is None,
            builder.name is None,
    {
        BlockBuilder { parent: None, name: None }
    }
}

impl BlockBuilder {
    /// Puts the new block into the block with this identifier.
    pub fn block(self, uuid: uuid::Uuid) -> (builder: Self)
        ensures
            builder.parent == Some(Parent::Block(uuid)),
            builder.name == self.name,
    {
        let mut builder = self;
        builder.parent = Some(Parent::Block(uuid));
        builder
    }

    /// Puts the new block into the domain with this identifier.
    pub fn domain(self, uuid: uuid::Uuid) -> (builder: Self)
        ensures
            builder.parent == Some(Parent::Domain(uuid)),
            builder.name == self.name,
    {
        let mut builder = self;
        builder.parent = Some(Parent::Domain(uuid));
        builder
    }

    /// Names the new block.
    pub fn name(self, name: &str) -> (builder: Self)
        ensures
            builder.name matches Some(given) && given@ == name@,
            builder.parent == self.parent,
    {
        let mut builder = self;
        builder.name = Some(name.to_owned());
        builder
    }

    /// Makes the block with the given identifier, and with `at` as the
    /// time of creation and of the last change. Fails where the name or
    /// the parent is missing.
    pub fn finalize_at(self, id: uuid::Uuid, at: Timestamp) -> (made: Result<Block, ()>)
        ensures
            made is Ok <==> self.name is Some && self.parent is Some,
            made matches Ok(block) ==> block.id == id && Some(block.name) == self.name && Some(
                block.parent,
            ) == self.parent && block.created_at == at && block.updated_at == at,
    {
        let name = match self.name {
            Some(name) => name,
            None => return Err(()),
        };
        let parent = match self.parent {
            Some(parent) => parent,
            None => return Err(()),
        };
        Ok(Block { id, parent, name, created_at: at, updated_at: at })
    }

    /// Makes the block, with a fresh identifier and the current time as
    /// the time of creation and of the last change. Fails where the name
    /// or the parent is missing; the clock is read and the identifier
    /// drawn only where it succeeds.
    pub fn finalize(self) -> (made: Result<Block, ()>)
        ensures
            made is Ok <==> self.name is Some && self.parent is Some,
            made matches Ok(block) ==> Some(block.name) == self.name && Some(block.parent)
                == self.parent && block.created_at == block.updated_at,
    {
        if self.name.is_none() || self.parent.is_none() {
            return Err(());
        }
        let at = now();
        let id = fresh_uuid();
        self.finalize_at(id, at)
    }
}

} // verus!
