//! Inventory levels, of one category or of all.
use vstd::prelude::*;
use vstd::string::StringExecFns;
use crate::server::op::{is_text_payload, text_payload};
use crate::server::primitives::{McpPayload, McpServerError};
use crate::text::{lemma_shows_extend, lemma_shows_whole, shows, str_eq};

verus! {

/// One category of the inventory. Each level is kept as the inventory
/// data shows it: the JSON text of the category's member (`null` when the
/// member is missing).
#[derive(Debug)]
pub struct InventoryCategory {
    pub name: String,
    pub available: String,
    pub in_use: String,
    pub reserved: String,
    pub expiring_soon: String,
}

/// The inventory data: when it was updated (when that is a text), and its
/// categories in the order of its `categories` object (`None` when that is
/// no object).
#[derive(Debug)]
pub struct InventoryData {
    pub last_updated: Option<String>,
    pub categories: Option<Vec<InventoryCategory>>,
}

/// The report of one category.
pub open spec fn category_text(c: InventoryCategory) -> Seq<char> {
    "\n  "@ + c.name@ + ":\n    Available:     "@ + c.available@ + "\n    In Use:        "@
        + c.in_use@ + "\n    Reserved:      "@ + c.reserved@ + "\n    Expiring Soon: "@
        + c.expiring_soon@ + "\n"@
}

/// The reports of the categories, in order.
pub open spec fn categories_text(cs: Seq<InventoryCategory>) -> Seq<char>
    decreases cs.len(),
{
    if cs.len() == 0 {
        Seq::empty()
    } else {
        categories_text(cs.drop_last()) + category_text(cs.last())
    }
}

/// The first line of the report.
pub open spec fn inventory_title(last_updated: Option<String>) -> Seq<char> {
    "Inventory Levels (updated: "@ + (match last_updated {
        Some(s) => s@,
        None => "N/A"@,
    }) + "):\n"@
}

/// The first category named `name`.
pub open spec fn find_category(cs: Seq<InventoryCategory>, name: Seq<char>) -> Option<InventoryCategory>
    decreases cs.len(),
{
    if cs.len() == 0 {
        None
    } else if cs[0].name@ == name {
        Some(cs[0])
    } else {
        find_category(cs.drop_first(), name)
    }
}

/// The inventory report: the categories must be there; a category asked
/// for must be one of them, and is the only one reported.
pub open spec fn inventory_spec(category: Option<Seq<char>>, data: InventoryData) -> Result<Seq<char>, McpServerError> {
    match data.categories {
        None => Err(McpServerError::CouldntFullFilledResponse),
        Some(cs) => match category {
            None => Ok(inventory_title(data.last_updated) + categories_text(cs@)),
            Some(name) => match find_category(cs@, name) {
                Some(c) => Ok(inventory_title(data.last_updated) + category_text(c)),
                None => Err(McpServerError::CouldntGetCallArguments),
            },
        },
    }
}

proof fn lemma_find_first(cs: Seq<InventoryCategory>, name: Seq<char>, i: int)
    requires
        0 <= i <= cs.len(),
        forall|j: int| 0 <= j < i ==> (#[trigger] cs[j]).name@ != name,
    ensures
        i < cs.len() && cs[i].name@ == name ==> find_category(cs, name) == Some(cs[i]),
        i == cs.len() ==> find_category(cs, name) is None,
    decreases i,
{
    if i > 0 {
        let rest = cs.drop_first();
        assert forall|j: int| 0 <= j < i - 1 implies (#[trigger] rest[j]).name@ != name by {
            assert(rest[j] == cs[j + 1]);
        }
        lemma_find_first(rest, name, i - 1);
        if i < cs.len() {
            assert(rest[i - 1] == cs[i]);
        }
    }
}

fn append_category(text: &mut String, c: &InventoryCategory)
    ensures
        final(text)@ == old(text)@ + category_text(*c),
{
    text.append("\n  ");
    text.append(c.name.as_str());
    text.append(":\n    Available:     ");
    text.append(c.available.as_str());
    text.append("\n    In Use:        ");
    text.append(c.in_use.as_str());
    text.append("\n    Reserved:      ");
    text.append(c.reserved.as_str());
    text.append("\n    Expiring Soon: ");
    text.append(c.expiring_soon.as_str());
    text.append("\n");
}

/// The inventory levels of `category`, or of all categories.
pub fn get_inventory_levels(category: Option<&str>, data: &InventoryData) -> (r: Result<McpPayload, McpServerError>)
    ensures
        ({
            let c = match category {
                Some(c) => Some(c@),
                None => None,
            };
            match r {
                Ok(p) => inventory_spec(c, *data) matches Ok(t) && is_text_payload(p, t),
                Err(e) => inventory_spec(c, *data) == Err::<Seq<char>, McpServerError>(e),
            }
        }),
{
    let categories = match &data.categories {
        Some(cs) => cs,
        None => {
            return Err(McpServerError::CouldntFullFilledResponse);
        }
    };
    let mut text = String::from_str("Inventory Levels (updated: ");
    match &data.last_updated {
        Some(s) => text.append(s.as_str()),
        None => text.append("N/A"),
    }
    text.append("):\n");
    assert(text@ == inventory_title(data.last_updated));
    match category {
        Some(cat) => {
            let mut i: usize = 0;
            while i < categories.len()
                invariant
                    i <= categories.len(),
                    text@ == inventory_title(data.last_updated),
                    data.categories == Some(*categories),
                    category == Some(cat),
                    forall|j: int| 0 <= j < i ==> (#[trigger] categories@[j]).name@ != cat@,
                decreases categories.len() - i,
            {
                if str_eq(categories[i].name.as_str(), cat) {
                    proof {
                        lemma_find_first(categories@, cat@, i as int);
                    }
                    append_category(&mut text, &categories[i]);
                    return Ok(text_payload(text));
                }
                i = i + 1;
            }
            proof {
                lemma_find_first(categories@, cat@, i as int);
            }
            Err(McpServerError::CouldntGetCallArguments)
        }
        None => {
            let mut i: usize = 0;
            let ghost start = text@;
            while i < categories.len()
                invariant
                    i <= categories.len(),
                    text@ == start + categories_text(categories@.take(i as int)),
                    start == inventory_title(data.last_updated),
                    data.categories == Some(*categories),
                decreases categories.len() - i,
            {
                assert(categories@.take(i + 1).drop_last() =~= categories@.take(i as int));
                append_category(&mut text, &categories[i]);
                i = i + 1;
            }
            assert(categories@.take(categories.len() as int) =~= categories@);
            Ok(text_payload(text))
        }
    }
}

/// The levels of a category under their labels, after its name.
pub open spec fn category_block(c: InventoryCategory) -> Seq<char> {
    let line = |label: Seq<char>, level: Seq<char>| "    "@ + label + level + "\n"@;
    "\n  "@ + c.name@ + ":\n"@ + line("Available:     "@, c.available@) + line("In Use:        "@, c.in_use@)
        + line("Reserved:      "@, c.reserved@) + line("Expiring Soon: "@, c.expiring_soon@)
}

/// A category's report is its block of levels.
proof fn lemma_block_is_text(c: InventoryCategory)
    ensures
        category_text(c) == category_block(c),
{
    reveal_strlit("\n  ");
    reveal_strlit(":\n    Available:     ");
    reveal_strlit("\n    In Use:        ");
    reveal_strlit("\n    Reserved:      ");
    reveal_strlit("\n    Expiring Soon: ");
    reveal_strlit("\n");
    reveal_strlit(":\n");
    reveal_strlit("    ");
    reveal_strlit("Available:     ");
    reveal_strlit("In Use:        ");
    reveal_strlit("Reserved:      ");
    reveal_strlit("Expiring Soon: ");
    assert(category_text(c) =~= category_block(c));
}

proof fn lemma_categories_shown(cs: Seq<InventoryCategory>)
    ensures
        forall|i: int| 0 <= i < cs.len() ==> shows(categories_text(cs), #[trigger] category_block(cs[i])),
    decreases cs.len(),
{
    if cs.len() > 0 {
        let init = cs.drop_last();
        lemma_categories_shown(init);
        assert forall|i: int| 0 <= i < cs.len() implies shows(categories_text(cs), #[trigger] category_block(cs[i])) by {
            if i == cs.len() - 1 {
                lemma_shows_whole(category_block(cs.last()));
                lemma_shows_extend(category_block(cs.last()), category_block(cs.last()), categories_text(init), Seq::empty());
                lemma_block_is_text(cs.last());
            } else {
                assert(init[i] == cs[i]);
                lemma_shows_extend(categories_text(init), category_block(cs[i]), Seq::empty(), category_text(cs.last()));
            }
        }
    }
}

proof fn lemma_find_category(cs: Seq<InventoryCategory>, name: Seq<char>)
    ensures
        find_category(cs, name) matches Some(c) ==> c.name@ == name && exists|i: int| 0 <= i < cs.len() && cs[i] == c,
        find_category(cs, name) is None ==> forall|i: int| 0 <= i < cs.len() ==> (#[trigger] cs[i]).name@ != name,
    decreases cs.len(),
{
    if cs.len() > 0 {
        lemma_find_category(cs.drop_first(), name);
        if cs[0].name@ != name {
            if find_category(cs, name) is Some {
                let c = find_category(cs, name).unwrap();
                let j = choose|j: int| 0 <= j < cs.drop_first().len() && cs.drop_first()[j] == c;
                assert(cs[j + 1] == c);
            } else {
                assert forall|i: int| 0 <= i < cs.len() implies (#[trigger] cs[i]).name@ != name by {
                    if i > 0 {
                        assert(cs[i] == cs.drop_first()[i - 1]);
                    }
                }
            }
        } else {
            assert(cs[0] == find_category(cs, name).unwrap());
        }
    }
}

/// The inventory report: its first line gives when the data was updated
/// (`N/A` when that is not known); a category asked for is reported when
/// the data has a category of that name, with its levels under their
/// labels, and refused when it has none; with no category asked for,
/// every category is reported with its levels.
#[verifier::spinoff_prover]
#[verifier::rlimit(60)]
pub proof fn law_inventory_report(category: Option<Seq<char>>, data: InventoryData)
    requires
        data.categories is Some,
    ensures
        ({
            let cs = data.categories.unwrap()@;
            let title = "Inventory Levels (updated: "@ + (match data.last_updated {
                Some(updated) => updated@,
                None => "N/A"@,
            }) + "):\n"@;
            &&& inventory_spec(category, data) matches Ok(t) ==> t.len() >= title.len() && t.subrange(0, title.len() as int) == title
            &&& category matches Some(c) ==> (inventory_spec(category, data) is Ok <==> exists|i: int| 0 <= i < cs.len() && (#[trigger] cs[i]).name@ == c)
            &&& category matches Some(c) ==> (inventory_spec(category, data) matches Ok(t) ==> exists|i: int| 0 <= i < cs.len() && (#[trigger] cs[i]).name@ == c && shows(t, category_block(cs[i])))
            &&& category matches Some(c) ==> (inventory_spec(category, data) is Err ==> inventory_spec(category, data) == Err::<Seq<char>, McpServerError>(McpServerError::CouldntGetCallArguments))
            &&& category is None ==> (inventory_spec(category, data) matches Ok(t) && forall|i: int| 0 <= i < cs.len() ==> shows(t, #[trigger] category_block(cs[i])))
        }),
{
    let cs = data.categories.unwrap()@;
    let title = inventory_title(data.last_updated);
    match category {
        Some(c) => {
            lemma_find_category(cs, c);
            if let Some(found) = find_category(cs, c) {
                let t = title + category_text(found);
                assert(t.subrange(0, title.len() as int) =~= title);
                lemma_shows_whole(category_block(found));
                lemma_block_is_text(found);
                lemma_shows_extend(category_block(found), category_block(found), title, Seq::empty());
                assert(t == title + category_block(found));
            }
        }
        None => {
            let t = title + categories_text(cs);
            assert(t.subrange(0, title.len() as int) =~= title);
            lemma_categories_shown(cs);
            assert forall|i: int| 0 <= i < cs.len() implies shows(t, #[trigger] category_block(cs[i])) by {
                lemma_shows_extend(categories_text(cs), category_block(cs[i]), title, Seq::empty());
            }
        }
    }
}

} // verus!
