//! JSON values as far as this project reads them: texts, arrays and objects.
use vstd::prelude::*;

use crate::text::same;

verus! {

/// A JSON value as `serde_json` holds it.
#[verifier::external_type_specification]
#[verifier::external_body]
pub struct ExValue(serde_json::Value);

/// Why `serde_json` could not read a text.
#[verifier::external_type_specification]
#[verifier::external_body]
pub struct ExError(serde_json::Error);

/// A JSON value. Of null, booleans and numbers only that they are there is kept.
pub enum Json {
    /// Null, a boolean or a number.
    Scalar,
    /// A string.
    Text(String),
    /// The elements of an array.
    Array(Vec<Json>),
    /// The members of an object, each a name and a value.
    Object(Vec<(String, Json)>),
}

/// The mathematical model of a JSON value.
pub enum Tree {
    /// Null, a boolean or a number.
    Scalar,
    /// The characters of a string.
    Text(Seq<char>),
    /// The elements of an array.
    Array(Seq<Tree>),
    /// The names of an object's members and, in the same order, their values.
    Object(Seq<Seq<char>>, Seq<Tree>),
}

/// The names of an object's members.
pub open spec fn member_names(members: Seq<(String, Json)>) -> Seq<Seq<char>> {
    Seq::new(members.len(), |i: int| members[i].0@)
}

/// The models of an array's elements.
pub open spec fn item_trees(items: Seq<Json>) -> Seq<Tree>
    decreases items,
{
    if items.len() == 0 {
        seq![]
    } else {
        item_trees(items.drop_last()).push(items.last().tree())
    }
}

/// The models of an object's values.
pub open spec fn member_trees(members: Seq<(String, Json)>) -> Seq<Tree>
    decreases members,
{
    if members.len() == 0 {
        seq![]
    } else {
        member_trees(members.drop_last()).push(members.last().1.tree())
    }
}

impl Json {
    /// The model of a JSON value.
    pub open spec fn tree(self) -> Tree
        decreases self,
    {
        match self {
            Json::Scalar => Tree::Scalar,
            Json::Text(text) => Tree::Text(text@),
            Json::Array(items) => Tree::Array(item_trees(items@)),
            Json::Object(members) => Tree::Object(member_names(members@), member_trees(members@)),
        }
    }
}

impl View for Json {
    type V = Tree;

    open spec fn view(&self) -> Tree {
        self.tree()
    }
}

/// The model of what a `serde_json::Value` holds.
pub uninterp spec fn value_tree(value: serde_json::Value) -> Tree;

/// The model of the value that `serde_json` reads in a text, if the text is JSON.
pub uninterp spec fn read_tree(text: Seq<char>) -> Option<Tree>;

/// One level of a `serde_json::Value`.
pub enum Layer<'a> {
    /// Null, a boolean or a number.
    Scalar,
    /// A string.
    Text(&'a String),
    /// The elements of an array.
    Array(&'a Vec<serde_json::Value>),
    /// The members of an object.
    Object(Vec<(&'a String, &'a serde_json::Value)>),
}

/// The variants of `serde_json::Value`, each with what it holds; the members of an object come
/// from `serde_json::Map::iter`. The model of a string is its characters, that of an array or an
/// object the models of the values in it, in the order in which it hands them out.
#[verifier::external_body]
fn layer_of(value: &serde_json::Value) -> (r: Layer<'_>)
    ensures
        match r {
            Layer::Scalar => value_tree(*value) == Tree::Scalar,
            Layer::Text(text) => value_tree(*value) == Tree::Text(text@),
            Layer::Array(items) => value_tree(*value) == Tree::Array(
                Seq::new(items@.len(), |i: int| value_tree(items@[i])),
            ),
            Layer::Object(members) => value_tree(*value) == Tree::Object(
                Seq::new(members@.len(), |i: int| members@[i].0@),
                Seq::new(members@.len(), |i: int| value_tree(*members@[i].1)),
            ),
        },
{
    match value {
        serde_json::Value::Null => Layer::Scalar,
        serde_json::Value::Bool(_) => Layer::Scalar,
        serde_json::Value::Number(_) => Layer::Scalar,
        serde_json::Value::String(text) => Layer::Text(text),
        serde_json::Value::Array(items) => Layer::Array(items),
        serde_json::Value::Object(members) => Layer::Object(members.iter().collect()),
    }
}

/// `serde_json::from_str` at `serde_json::Value`: the value that it reads in the text has the
/// model that `read_tree` names, and it fails where `read_tree` names none.
#[verifier::external_body]
fn read_value(text: &str) -> (r: Result<serde_json::Value, serde_json::Error>)
    ensures
        match r {
            Ok(value) => read_tree(text@) == Some(value_tree(value)),
            Err(_) => read_tree(text@) is None,
        },
{
    serde_json::from_str(text)
}

/// The value as this project reads it.
pub fn json_from_value(value: &serde_json::Value) -> (r: Json)
    ensures
        r@ == value_tree(*value),
    decreases value_tree(*value),
{
    match layer_of(value) {
        Layer::Scalar => Json::Scalar,
        Layer::Text(text) => Json::Text(text.clone()),
        Layer::Array(items) => {
            let mut r: Vec<Json> = Vec::new();
            let ghost trees = Seq::new(items@.len(), |i: int| value_tree(items@[i]));
            for i in 0..items.len()
                invariant
                    value_tree(*value) == Tree::Array(trees),
                    trees == Seq::new(items@.len(), |i: int| value_tree(items@[i])),
                    r@.len() == i,
                    item_trees(r@) == trees.take(i as int),
            {
                let ghost before = r@;
                assert(trees[i as int] == value_tree(items@[i as int]));
                assert(decreases_to!(value_tree(*value) => value_tree(*value)->Array_0));
                assert(decreases_to!(trees => trees[i as int]));
                let item = json_from_value(&items[i]);
                r.push(item);
                assert(r@.drop_last() == before);
                assert(item_trees(r@) == trees.take(i + 1));
            }
            assert(trees.take(items.len() as int) == trees);
            Json::Array(r)
        },
        Layer::Object(members) => {
            let mut r: Vec<(String, Json)> = Vec::new();
            let ghost names = Seq::new(members@.len(), |i: int| members@[i].0@);
            let ghost trees = Seq::new(members@.len(), |i: int| value_tree(*members@[i].1));
            for i in 0..members.len()
                invariant
                    value_tree(*value) == Tree::Object(names, trees),
                    names == Seq::new(members@.len(), |i: int| members@[i].0@),
                    trees == Seq::new(members@.len(), |i: int| value_tree(*members@[i].1)),
                    r@.len() == i,
                    member_names(r@) == names.take(i as int),
                    member_trees(r@) == trees.take(i as int),
            {
                let ghost before = r@;
                assert(trees[i as int] == value_tree(*members@[i as int].1));
                assert(decreases_to!(value_tree(*value) => value_tree(*value)->Object_1));
                assert(decreases_to!(trees => trees[i as int]));
                let member = (members[i].0.clone(), json_from_value(members[i].1));
                r.push(member);
                assert(r@.drop_last() == before);
                assert(member_names(r@) == names.take(i + 1));
                assert(member_trees(r@) == trees.take(i + 1));
            }
            assert(names.take(members.len() as int) == names);
            assert(trees.take(members.len() as int) == trees);
            Json::Object(r)
        },
    }
}

/// The value that the text writes, if the text is JSON.
pub fn parse_json(text: &str) -> (r: Option<Json>)
    ensures
        match r {
            Some(value) => read_tree(text@) == Some(value@),
            None => read_tree(text@) is None,
        },
{
    match read_value(text) {
        Ok(value) => Some(json_from_value(&value)),
        Err(_) => None,
    }
}

/// Where a name first stands in a list of names.
pub open spec fn place_of(names: Seq<Seq<char>>, name: Seq<char>) -> Option<int>
    decreases names.len(),
{
    if names.len() == 0 {
        None
    } else if names[0] == name {
        Some(0)
    } else {
        match place_of(names.skip(1), name) {
            Some(i) => Some(i + 1),
            None => None,
        }
    }
}

impl Tree {
    /// The value of the object's member of that name.
    pub open spec fn member(self, name: Seq<char>) -> Option<Tree> {
        match self {
            Tree::Object(names, values) => match place_of(names, name) {
                Some(i) => Some(values[i]),
                None => None,
            },
            _ => None,
        }
    }

    /// The characters, if this is a string.
    pub open spec fn text(self) -> Option<Seq<char>> {
        match self {
            Tree::Text(text) => Some(text),
            _ => None,
        }
    }

    /// The characters of the member of that name, if there is one and it is a string.
    pub open spec fn text_member(self, name: Seq<char>) -> Option<Seq<char>> {
        match self.member(name) {
            Some(value) => value.text(),
            None => None,
        }
    }

    /// The elements, if this is an array.
    pub open spec fn items(self) -> Option<Seq<Tree>> {
        match self {
            Tree::Array(items) => Some(items),
            _ => None,
        }
    }
}

/// The model of an array's element is that of the element.
pub proof fn lemma_item_trees(items: Seq<Json>)
    ensures
        item_trees(items).len() == items.len(),
        forall|i: int| 0 <= i < items.len() ==> #[trigger] item_trees(items)[i] == items[i]@,
    decreases items.len(),
{
    if items.len() > 0 {
        lemma_item_trees(items.drop_last());
        assert forall|i: int| 0 <= i < items.len() implies #[trigger] item_trees(items)[i]
            == items[i]@ by {
            if i < items.len() - 1 {
                assert(items.drop_last()[i] == items[i]);
                assert(item_trees(items.drop_last())[i] == items[i]@);
            }
        }
    }
}

/// The model of a member's value is that of the value.
pub proof fn lemma_member_trees(members: Seq<(String, Json)>)
    ensures
        member_trees(members).len() == members.len(),
        forall|i: int|
            0 <= i < members.len() ==> #[trigger] member_trees(members)[i] == members[i].1@,
    decreases members.len(),
{
    if members.len() > 0 {
        lemma_member_trees(members.drop_last());
        assert forall|i: int| 0 <= i < members.len() implies #[trigger] member_trees(members)[i]
            == members[i].1@ by {
            if i < members.len() - 1 {
                assert(members.drop_last()[i] == members[i]);
                assert(member_trees(members.drop_last())[i] == members[i].1@);
            }
        }
    }
}

proof fn lemma_place_of(names: Seq<Seq<char>>, name: Seq<char>, k: int)
    requires
        0 <= k <= names.len(),
        forall|j: int| 0 <= j < k ==> names[j] != name,
    ensures
        place_of(names, name) == match place_of(names.skip(k), name) {
            Some(i) => Some(i + k),
            None => None,
        },
    decreases k,
{
    if k == 0 {
        assert(names.skip(0) == names);
    } else {
        assert forall|j: int| 0 <= j < k - 1 implies names.skip(1)[j] != name by {
            assert(names[j + 1] != name);
        }
        lemma_place_of(names.skip(1), name, k - 1);
        assert(names.skip(1).skip(k - 1) == names.skip(k));
    }
}

impl Json {
    /// The value of the object's member of that name.
    pub fn get(&self, name: &str) -> (r: Option<&Json>)
        ensures
            match r {
                Some(value) => self@.member(name@) == Some(value@),
                None => self@.member(name@) is None,
            },
    {
        match self {
            Json::Object(members) => {
                let ghost names = member_names(members@);
                proof {
                    lemma_member_trees(members@);
                }
                for i in 0..members.len()
                    invariant
                        *self == Json::Object(*members),
                        names == member_names(members@),
                        member_trees(members@).len() == members@.len(),
                        forall|i: int|
                            0 <= i < members@.len() ==> #[trigger] member_trees(members@)[i]
                                == members@[i].1@,
                        forall|j: int| 0 <= j < i ==> names[j] != name@,
                {
                    if same(members[i].0.as_str(), name) {
                        proof {
                            lemma_place_of(names, name@, i as int);
                            assert(names.skip(i as int)[0] == name@);
                        }
                        return Some(&members[i].1);
                    }
                    assert(names[i as int] != name@);
                }
                proof {
                    lemma_place_of(names, name@, names.len() as int);
                }
                None
            },
            _ => None,
        }
    }

    /// The characters, if this is a string.
    pub fn as_str(&self) -> (r: Option<&str>)
        ensures
            match r {
                Some(text) => self@.text() == Some(text@),
                None => self@.text() is None,
            },
    {
        match self {
            Json::Text(text) => Some(text.as_str()),
            _ => None,
        }
    }

    /// The characters of the member of that name, if there is one and it is a string.
    pub fn get_str(&self, name: &str) -> (r: Option<&str>)
        ensures
            match r {
                Some(text) => self@.text_member(name@) == Some(text@),
                None => self@.text_member(name@) is None,
            },
    {
        match self.get(name) {
            Some(value) => value.as_str(),
            None => None,
        }
    }

    /// The elements, if this is an array.
    pub fn as_array(&self) -> (r: Option<&Vec<Json>>)
        ensures
            match r {
                Some(items) => self@.items() == Some(item_trees(items@)),
                None => self@.items() is None,
            },
    {
        match self {
            Json::Array(items) => Some(items),
            _ => None,
        }
    }
}

} // verus!
