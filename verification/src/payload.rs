//! Three payloads of typical size: a flat object, a nested one, and an array of a
//! hundred nested ones.
use vstd::prelude::*;

use crate::codec::string_value;
use crate::json_b::JsonB;
use crate::make::{Members, bool_value, number_value, repeated_value, string_pair};
use crate::tree::{Tree, number_parts, number_text, tree, unsigned_part, whole_part};

verus! {

/// How many objects the large payload holds.
pub const LARGE_COUNT: usize = 100;

/// Digits are a JSON number, unless a superfluous zero stands in front.
proof fn lemma_whole_number(s: Seq<char>)
    requires
        whole_part(s),
    ensures
        number_text(s),
{
    assert(s[0] != '-');
    assert(s.take(s.len() as int) =~= s);
    assert(number_parts(unsigned_part(s), s.len() as int, s.len() as int));
}

/// The flat object.
pub open spec fn small_tree() -> Tree {
    Tree::Object(
        seq![
            ("id"@, Tree::Number("42"@)),
            ("name"@, Tree::Text("Alice"@)),
            ("active"@, Tree::Bool(true)),
            ("score"@, Tree::Number("9.81"@)),
        ],
    )
}

/// The flat object.
pub fn small_jsonb() -> (r: JsonB)
    ensures
        r@ == small_tree(),
{
    proof {
        reveal_strlit("42");
        reveal_strlit("9.81");
        lemma_whole_number("42"@);
        let s = "9.81"@;
        assert(s.take(1) =~= seq!['9']);
        assert(s.subrange(1, 4).skip(1) =~= seq!['8', '1']);
        assert(s.skip(4) =~= Seq::<char>::empty());
        assert(number_parts(unsigned_part(s), 1, 4));
    }
    let members = Members::new()
        .with("id", number_value("42"))
        .with("name", string_value("Alice"))
        .with("active", bool_value(true))
        .with("score", number_value("9.81"));
    proof {
        assert(members@ =~= seq![
            ("id"@, Tree::Number("42"@)),
            ("name"@, Tree::Text("Alice"@)),
            ("active"@, Tree::Bool(true)),
            ("score"@, Tree::Number("9.81"@)),
        ]);
        reveal_strlit("id");
        reveal_strlit("name");
        reveal_strlit("active");
        reveal_strlit("score");
        assert("id"@.len() == 2);
        assert("name"@.len() == 4);
        assert("active"@.len() == 6);
        assert("score"@.len() == 5);
    }
    JsonB(members.object())
}

/// The address of the nested object's user.
pub open spec fn address_tree() -> Tree {
    Tree::Object(
        seq![
            ("street"@, Tree::Text("123 Main St"@)),
            ("city"@, Tree::Text("Anytown"@)),
            ("zip"@, Tree::Text("12345"@)),
            ("country"@, Tree::Text("US"@)),
        ],
    )
}

/// The address of the nested object's user.
fn address() -> (r: serde_json::Value)
    ensures
        tree(r) == address_tree(),
{
    let members = Members::new()
        .with("street", string_value("123 Main St"))
        .with("city", string_value("Anytown"))
        .with("zip", string_value("12345"))
        .with("country", string_value("US"));
    proof {
        assert(members@ =~= seq![
            ("street"@, Tree::Text("123 Main St"@)),
            ("city"@, Tree::Text("Anytown"@)),
            ("zip"@, Tree::Text("12345"@)),
            ("country"@, Tree::Text("US"@)),
        ]);
        reveal_strlit("street");
        reveal_strlit("city");
        reveal_strlit("zip");
        reveal_strlit("country");
        assert("street"@.len() == 6);
        assert("city"@.len() == 4);
        assert("zip"@.len() == 3);
        assert("country"@.len() == 7);
    }
    members.object()
}

/// The user of the nested object.
pub open spec fn user_tree() -> Tree {
    Tree::Object(
        seq![
            ("id"@, Tree::Number("1234"@)),
            ("name"@, Tree::Text("Bob"@)),
            ("email"@, Tree::Text("bob@example.com"@)),
            ("roles"@, Tree::Array(seq![Tree::Text("admin"@), Tree::Text("editor"@)])),
            ("address"@, address_tree()),
        ],
    )
}

/// The user of the nested object.
fn user() -> (r: serde_json::Value)
    ensures
        tree(r) == user_tree(),
{
    proof {
        reveal_strlit("1234");
        lemma_whole_number("1234"@);
    }
    let members = Members::new()
        .with("id", number_value("1234"))
        .with("name", string_value("Bob"))
        .with("email", string_value("bob@example.com"))
        .with("roles", string_pair("admin", "editor"))
        .with("address", address());
    proof {
        assert(members@ =~= seq![
            ("id"@, Tree::Number("1234"@)),
            ("name"@, Tree::Text("Bob"@)),
            ("email"@, Tree::Text("bob@example.com"@)),
            ("roles"@, Tree::Array(seq![Tree::Text("admin"@), Tree::Text("editor"@)])),
            ("address"@, address_tree()),
        ]);
        reveal_strlit("id");
        reveal_strlit("name");
        reveal_strlit("email");
        reveal_strlit("roles");
        reveal_strlit("address");
        assert("id"@.len() == 2);
        assert("name"@.len() == 4);
        assert("email"@.len() == 5);
        assert("roles"@.len() == 5);
        assert("address"@.len() == 7);
        assert("email"@[0] != "roles"@[0]);
    }
    members.object()
}

/// The limits in the nested object's settings.
pub open spec fn limits_tree() -> Tree {
    Tree::Object(
        seq![
            ("max_uploads"@, Tree::Number("100"@)),
            ("max_size_mb"@, Tree::Number("50"@)),
        ],
    )
}

/// The limits in the nested object's settings.
fn limits() -> (r: serde_json::Value)
    ensures
        tree(r) == limits_tree(),
{
    proof {
        reveal_strlit("100");
        reveal_strlit("50");
        lemma_whole_number("100"@);
        lemma_whole_number("50"@);
    }
    let members = Members::new()
        .with("max_uploads", number_value("100"))
        .with("max_size_mb", number_value("50"));
    proof {
        assert(members@ =~= seq![
            ("max_uploads"@, Tree::Number("100"@)),
            ("max_size_mb"@, Tree::Number("50"@)),
        ]);
        reveal_strlit("max_uploads");
        reveal_strlit("max_size_mb");
        assert("max_uploads"@.len() == 11);
        assert("max_size_mb"@.len() == 11);
        assert("max_uploads"@[4] != "max_size_mb"@[4]);
    }
    members.object()
}

/// The settings of the nested object.
pub open spec fn settings_tree() -> Tree {
    Tree::Object(
        seq![
            ("theme"@, Tree::Text("dark"@)),
            ("notifications"@, Tree::Bool(true)),
            ("language"@, Tree::Text("en-US"@)),
            ("limits"@, limits_tree()),
        ],
    )
}

/// The settings of the nested object.
fn settings() -> (r: serde_json::Value)
    ensures
        tree(r) == settings_tree(),
{
    let members = Members::new()
        .with("theme", string_value("dark"))
        .with("notifications", bool_value(true))
        .with("language", string_value("en-US"))
        .with("limits", limits());
    proof {
        assert(members@ =~= seq![
            ("theme"@, Tree::Text("dark"@)),
            ("notifications"@, Tree::Bool(true)),
            ("language"@, Tree::Text("en-US"@)),
            ("limits"@, limits_tree()),
        ]);
        reveal_strlit("theme");
        reveal_strlit("notifications");
        reveal_strlit("language");
        reveal_strlit("limits");
        assert("theme"@.len() == 5);
        assert("notifications"@.len() == 13);
        assert("language"@.len() == 8);
        assert("limits"@.len() == 6);
    }
    members.object()
}

/// The nested object.
pub open spec fn medium_tree() -> Tree {
    Tree::Object(
        seq![
            ("user"@, user_tree()),
            ("settings"@, settings_tree()),
            ("tags"@, Tree::Array(seq![Tree::Text("premium"@), Tree::Text("verified"@)])),
            ("created_at"@, Tree::Text("2024-01-15T10:30:00Z"@)),
        ],
    )
}

/// The nested object.
fn medium_value() -> (r: serde_json::Value)
    ensures
        tree(r) == medium_tree(),
{
    let members = Members::new()
        .with("user", user())
        .with("settings", settings())
        .with("tags", string_pair("premium", "verified"))
        .with("created_at", string_value("2024-01-15T10:30:00Z"));
    proof {
        assert(members@ =~= seq![
            ("user"@, user_tree()),
            ("settings"@, settings_tree()),
            ("tags"@, Tree::Array(seq![Tree::Text("premium"@), Tree::Text("verified"@)])),
            ("created_at"@, Tree::Text("2024-01-15T10:30:00Z"@)),
        ]);
        reveal_strlit("user");
        reveal_strlit("settings");
        reveal_strlit("tags");
        reveal_strlit("created_at");
        assert("user"@.len() == 4);
        assert("settings"@.len() == 8);
        assert("tags"@.len() == 4);
        assert("created_at"@.len() == 10);
        assert("user"@[0] != "tags"@[0]);
    }
    members.object()
}

/// The nested object.
pub fn medium_jsonb() -> (r: JsonB)
    ensures
        r@ == medium_tree(),
{
    JsonB(medium_value())
}

/// The array of nested objects.
pub open spec fn large_tree() -> Tree {
    Tree::Array(Seq::new(LARGE_COUNT as nat, |i: int| medium_tree()))
}

/// The array of nested objects.
pub fn large_jsonb() -> (r: JsonB)
    ensures
        r@ == large_tree(),
{
    let item = medium_value();
    JsonB(repeated_value(&item, LARGE_COUNT))
}

} // verus!
