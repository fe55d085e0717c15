//! Items of a crate's rustdoc JSON as the hover and completion logic reads them.

use vstd::prelude::*;

use crate::assoc::{
    insert_keyed, insert_pair, key_index, key_position, keyed, keys_unique, lemma_key_index_from,
    lemma_key_index_same_keys, lookup,
};

verus! {

/// A type as rustdoc describes it.
#[derive(Debug)]
pub enum RustdocType {
    /// A primitive such as `i32` or `str`.
    Primitive(String),
    /// A generic parameter such as `T`, or `Self`.
    Generic(String),
    /// A path to a named type with its generic arguments.
    ResolvedPath { name: String, args: Vec<RustdocType> },
    /// `&T` or `&mut T`.
    BorrowedRef { is_mutable: bool, ty: Box<RustdocType> },
    /// `(A, B, ...)`; the empty tuple is `()`.
    Tuple(Vec<RustdocType>),
    /// `[T]`.
    Slice(Box<RustdocType>),
    /// `[T; len]`.
    Array { ty: Box<RustdocType>, len: String },
    /// `*const T` or `*mut T`.
    RawPointer { is_mutable: bool, ty: Box<RustdocType> },
    /// `impl Bound + ...`.
    ImplTrait(Vec<String>),
    /// `fn(A, B) -> R`.
    FnPointer { params: Vec<RustdocType>, return_type: Box<RustdocType> },
    /// `<T as Trait>::Name`.
    QualifiedPath { name: String },
    /// `_`.
    Infer,
    /// A type this representation does not cover, as text.
    Unknown(String),
}

/// A generic parameter with its trait bounds.
#[derive(Debug)]
pub struct RustdocGenericParam {
    /// Parameter name.
    pub name: String,
    /// Names of the bounds.
    pub bounds: Vec<String>,
}

/// A named field.
#[derive(Debug)]
pub struct RustdocField {
    /// Field name.
    pub name: String,
    /// Field type.
    pub ty: RustdocType,
}

/// A function or method.
#[derive(Debug)]
pub struct RustdocFunction {
    /// Generic parameters.
    pub generics: Vec<RustdocGenericParam>,
    /// Parameters as `(name, type)`.
    pub params: Vec<(String, RustdocType)>,
    /// Return type; `None` for `()`.
    pub return_type: Option<RustdocType>,
    /// Whether it is `async`.
    pub is_async: bool,
    /// Whether it is `unsafe`.
    pub is_unsafe: bool,
    /// Whether it takes `self`.
    pub has_self: bool,
    /// The type a method belongs to.
    pub parent_type: Option<String>,
}

/// A struct.
#[derive(Debug)]
pub struct RustdocStruct {
    /// Generic parameters.
    pub generics: Vec<RustdocGenericParam>,
    /// Named fields.
    pub fields: Vec<RustdocField>,
    /// Whether it is a tuple struct.
    pub is_tuple: bool,
    /// Ids of its methods.
    pub method_ids: Vec<String>,
}

/// A trait.
#[derive(Debug)]
pub struct RustdocTrait {
    /// Generic parameters.
    pub generics: Vec<RustdocGenericParam>,
    /// Ids of its methods.
    pub method_ids: Vec<String>,
}

/// An enum.
#[derive(Debug)]
pub struct RustdocEnum {
    /// Generic parameters.
    pub generics: Vec<RustdocGenericParam>,
    /// Its variants.
    pub variants: Vec<RustdocVariant>,
}

/// An enum variant.
#[derive(Debug)]
pub struct RustdocVariant {
    /// Variant name.
    pub name: String,
    /// Its shape.
    pub kind: RustdocVariantKind,
}

/// The shape of an enum variant.
#[derive(Debug)]
pub enum RustdocVariantKind {
    /// No data.
    Plain,
    /// Positional data.
    Tuple(Vec<RustdocType>),
    /// Named fields.
    Struct(Vec<RustdocField>),
}

/// A documented item.
#[derive(Debug)]
pub struct RustdocItem {
    /// Rustdoc id.
    pub id: String,
    /// Item name.
    pub name: String,
    /// Doc comment, if any.
    pub docs: Option<String>,
    /// What the item is.
    pub kind: RustdocItemKind,
}

/// The kinds of item the translator renders.
#[derive(Debug)]
pub enum RustdocItemKind {
    Function(RustdocFunction),
    Struct(RustdocStruct),
    Trait(RustdocTrait),
    Enum(RustdocEnum),
}

/// The ids under each name: each id list taken by its characters.
pub open spec fn names_view(v: Seq<(String, Vec<String>)>) -> Seq<(Seq<char>, Seq<Seq<char>>)> {
    v.map_values(|p: (String, Vec<String>)| (p.0@, p.1@.map_values(|s: String| s@)))
}

/// `s` with `id` appended to the ids under `k` (a new key starts a list).
pub open spec fn push_id(s: Seq<(Seq<char>, Seq<Seq<char>>)>, k: Seq<char>, id: Seq<char>) -> Seq<(Seq<char>, Seq<Seq<char>>)> {
    match key_index(s, k) {
        Some(i) => s.update(i, (k, s[i].1.push(id))),
        None => s.push((k, seq![id])),
    }
}

/// The parsed rustdoc of one crate: its items by id, and the ids of the
/// items under each public name.
#[derive(Debug)]
pub struct RustdocCrate {
    name_index: Vec<(String, Vec<String>)>,
    items: Vec<(String, RustdocItem)>,
}

impl RustdocCrate {
    /// Each public name with the ids of its items, in insertion order.
    pub closed spec fn name_index(&self) -> Seq<(Seq<char>, Seq<Seq<char>>)> {
        names_view(self.name_index@)
    }

    /// Each item under its id, in insertion order.
    pub closed spec fn items(&self) -> Seq<(Seq<char>, RustdocItem)> {
        keyed(self.items@)
    }

    /// No name and no id occurs twice.
    #[verifier::type_invariant]
    spec fn keys_distinct(&self) -> bool {
        keys_unique(self.name_index()) && keys_unique(self.items())
    }

    /// A crate with no items.
    pub fn new() -> (r: Self)
        ensures
            r.name_index() == Seq::<(Seq<char>, Seq<Seq<char>>)>::empty(),
            r.items() == Seq::<(Seq<char>, RustdocItem)>::empty(),
    {
        let r = RustdocCrate { name_index: Vec::new(), items: Vec::new() };
        assert(r.name_index() =~= Seq::<(Seq<char>, Seq<Seq<char>>)>::empty());
        assert(r.items() =~= Seq::<(Seq<char>, RustdocItem)>::empty());
        r
    }

    /// Files the item `id` under `name`, after the ids already there.
    pub fn add_name(&mut self, name: String, id: String)
        ensures
            final(self).name_index() == push_id(old(self).name_index(), name@, id@),
            final(self).items() == old(self).items(),
    {
        proof {
            use_type_invariant(&*self);
        }
        let ghost s = self.name_index();
        let mut index: Vec<(String, Vec<String>)> = Vec::new();
        std::mem::swap(&mut index, &mut self.name_index);
        assert(names_view(index@) == s);
        proof {
            lemma_key_index_same_keys(s, keyed(index@), name@, 0);
            lemma_key_index_from(s, name@, 0);
        }
        match key_position(&index, &name) {
            Some(i) => {
                let ghost k = name@;
                let ghost idv = id@;
                let ghost old_v = index@;
                let mut pair = index.remove(i);
                assert(pair == old_v[i as int]);
                assert(s[i as int].1 == old_v[i as int].1@.map_values(|t: String| t@));
                let ghost before_ids = pair.1@;
                pair.1.push(id);
                assert(pair.1@ == before_ids.push(id));
                let ghost mapped = pair.1@.map_values(|t: String| t@);
                let ghost want = s[i as int].1.push(idv);
                assert(mapped.len() == want.len());
                assert forall|j: int| 0 <= j < mapped.len() implies mapped[j] == want[j] by {
                    if j < before_ids.len() {
                        assert(mapped[j] == before_ids[j]@);
                    }
                }
                assert(mapped =~= want);
                assert(pair.0@ == k);
                index.insert(i, pair);
                assert(index@ =~= old_v.update(i as int, pair));
                assert(names_view(index@) =~= s.update(i as int, (k, s[i as int].1.push(idv))));
            },
            None => {
                let ghost k = name@;
                let ghost idv = id@;
                let mut ids: Vec<String> = Vec::new();
                ids.push(id);
                assert(ids@.map_values(|s: String| s@) =~= seq![idv]);
                index.push((name, ids));
                assert(names_view(index@) =~= s.push((k, seq![idv])));
            },
        }
        assert(keys_unique(names_view(index@))) by {
            let t = names_view(index@);
            assert forall|a: int, b: int| 0 <= a < b < t.len() implies t[a].0 != t[b].0 by {
                if b == s.len() {
                    assert(t[a].0 == s[a].0);
                } else {
                    assert(t[a].0 == s[a].0 && t[b].0 == s[b].0);
                }
            }
        }
        self.name_index = index;
    }

    /// Stores `item` under `id`, replacing an item stored there before.
    pub fn insert_item(&mut self, id: String, item: RustdocItem)
        ensures
            final(self).items() == insert_pair(old(self).items(), id@, item),
            final(self).name_index() == old(self).name_index(),
    {
        proof {
            use_type_invariant(&*self);
        }
        let mut items: Vec<(String, RustdocItem)> = Vec::new();
        std::mem::swap(&mut items, &mut self.items);
        insert_keyed(&mut items, id, item);
        self.items = items;
    }

    /// The public names with their ids.
    pub fn name_entries(&self) -> (r: &Vec<(String, Vec<String>)>)
        ensures
            names_view(r@) == self.name_index(),
            keys_unique(self.name_index()),
    {
        proof {
            use_type_invariant(self);
        }
        &self.name_index
    }

    /// The item stored under `id`.
    pub fn item(&self, id: &String) -> (r: Option<&RustdocItem>)
        ensures
            r matches Some(it) ==> lookup(self.items(), id@) == Some(*it),
            r is None ==> lookup(self.items(), id@) is None,
    {
        match key_position(&self.items, id) {
            Some(i) => Some(&self.items[i].1),
            None => None,
        }
    }
}

/// Parsed rustdoc of the crates a project depends on, by crate name.
#[derive(Debug)]
pub struct RustdocCache {
    crates: Vec<(String, RustdocCrate)>,
}

impl RustdocCache {
    /// Each crate under its name, in insertion order.
    pub closed spec fn crates(&self) -> Seq<(Seq<char>, RustdocCrate)> {
        keyed(self.crates@)
    }

    /// No crate name occurs twice.
    #[verifier::type_invariant]
    spec fn names_distinct(&self) -> bool {
        keys_unique(self.crates())
    }

    /// A cache with no crates.
    pub fn new() -> (r: Self)
        ensures
            r.crates() == Seq::<(Seq<char>, RustdocCrate)>::empty(),
    {
        let r = RustdocCache { crates: Vec::new() };
        assert(r.crates() =~= Seq::<(Seq<char>, RustdocCrate)>::empty());
        r
    }

    /// Stores the rustdoc of crate `name`, replacing an earlier one.
    pub fn insert(&mut self, name: String, krate: RustdocCrate)
        ensures
            final(self).crates() == insert_pair(old(self).crates(), name@, krate),
    {
        proof {
            use_type_invariant(&*self);
        }
        let mut crates: Vec<(String, RustdocCrate)> = Vec::new();
        std::mem::swap(&mut crates, &mut self.crates);
        insert_keyed(&mut crates, name, krate);
        self.crates = crates;
    }

    /// The rustdoc of crate `name`.
    pub fn get_crate(&self, name: &str) -> (r: Option<&RustdocCrate>)
        ensures
            r matches Some(c) ==> lookup(self.crates(), name@) == Some(*c),
            r is None ==> lookup(self.crates(), name@) is None,
    {
        let key = name.to_owned();
        match key_position(&self.crates, &key) {
            Some(i) => Some(&self.crates[i].1),
            None => None,
        }
    }
}

} // verus!
