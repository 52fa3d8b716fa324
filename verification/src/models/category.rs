//! Expense categories, with an optional monthly budget.
use vstd::prelude::*;

use crate::decimal::Dec;
use crate::text::clone_opt_string;

verus! {

/// An expense category. System categories are seeded on first launch and
/// cannot be edited or deleted.
#[derive(Clone, Debug, PartialEq)]
pub struct Category {
    pub id: String,
    pub name: String,
    pub icon: Option<String>,
    pub color: Option<String>,
    pub budget_amount: Option<Dec>,
    pub parent_id: Option<String>,
    pub sort_order: i32,
    pub is_system: bool,
    pub created_at: i64,
}

impl Category {
    /// A field-by-field copy.
    pub fn duplicate(&self) -> (r: Category)
        ensures
            r == *self,
    {
        Category {
            id: self.id.clone(),
            name: self.name.clone(),
            icon: clone_opt_string(&self.icon),
            color: clone_opt_string(&self.color),
            budget_amount: self.budget_amount,
            parent_id: clone_opt_string(&self.parent_id),
            sort_order: self.sort_order,
            is_system: self.is_system,
            created_at: self.created_at,
        }
    }
}

/// The fields of a category about to be created.
#[derive(Clone, Debug, PartialEq)]
pub struct NewCategory {
    pub name: String,
    pub icon: Option<String>,
    pub color: Option<String>,
    pub budget_amount: Option<Dec>,
    pub parent_id: Option<String>,
    pub sort_order: i32,
}

/// Names of the system categories, in order.
pub open spec fn default_category_names() -> Seq<Seq<char>> {
    seq![
        "Food & Drinks"@,
        "Transport"@,
        "Shopping"@,
        "Health"@,
        "Entertainment"@,
        "Education"@,
        "Bills & Utilities"@,
        "Personal Care"@,
        "Travel"@,
        "Other"@,
    ]
}

/// Icons of the system categories, in order.
pub open spec fn default_category_icons() -> Seq<Seq<char>> {
    seq![
        "\u{1F35C}"@,
        "\u{1F697}"@,
        "\u{1F6CD}\u{FE0F}"@,
        "\u{1F48A}"@,
        "\u{1F3AE}"@,
        "\u{1F4DA}"@,
        "\u{1F3E0}"@,
        "\u{1F486}"@,
        "\u{2708}\u{FE0F}"@,
        "\u{1F4E6}"@,
    ]
}

/// Colors of the system categories, in order.
pub open spec fn default_category_colors() -> Seq<Seq<char>> {
    seq![
        "#FF6B6B"@,
        "#4ECDC4"@,
        "#45B7D1"@,
        "#96CEB4"@,
        "#FFEAA7"@,
        "#DDA0DD"@,
        "#F0E68C"@,
        "#FFB6C1"@,
        "#87CEEB"@,
        "#D3D3D3"@,
    ]
}

/// The `i`-th system category: its name, icon and color from the tables above,
/// no budget, no parent, and sort order `i + 1`.
pub open spec fn is_default_category(c: NewCategory, i: int) -> bool {
    &&& c.name@ == default_category_names()[i]
    &&& c.icon matches Some(icon) && icon@ == default_category_icons()[i]
    &&& c.color matches Some(color) && color@ == default_category_colors()[i]
    &&& c.budget_amount is None
    &&& c.parent_id is None
    &&& c.sort_order == i + 1
}

fn default_category(name: &str, icon: &str, color: &str, sort_order: i32) -> (r: NewCategory)
    ensures
        r.name@ == name@,
        r.icon matches Some(i) && i@ == icon@,
        r.color matches Some(c) && c@ == color@,
        r.budget_amount is None,
        r.parent_id is None,
        r.sort_order == sort_order,
{
    NewCategory {
        name: name.to_owned(),
        icon: Some(icon.to_owned()),
        color: Some(color.to_owned()),
        budget_amount: None,
        parent_id: None,
        sort_order,
    }
}

/// The system categories seeded on first launch.
pub fn default_categories() -> (r: Vec<NewCategory>)
    ensures
        r.len() == 10,
        forall|i: int| 0 <= i < 10 ==> is_default_category(#[trigger] r[i], i),
{
    let mut v: Vec<NewCategory> = Vec::new();
    v.push(default_category("Food & Drinks", "\u{1F35C}", "#FF6B6B", 1));
    v.push(default_category("Transport", "\u{1F697}", "#4ECDC4", 2));
    v.push(default_category("Shopping", "\u{1F6CD}\u{FE0F}", "#45B7D1", 3));
    v.push(default_category("Health", "\u{1F48A}", "#96CEB4", 4));
    v.push(default_category("Entertainment", "\u{1F3AE}", "#FFEAA7", 5));
    v.push(default_category("Education", "\u{1F4DA}", "#DDA0DD", 6));
    v.push(default_category("Bills & Utilities", "\u{1F3E0}", "#F0E68C", 7));
    v.push(default_category("Personal Care", "\u{1F486}", "#FFB6C1", 8));
    v.push(default_category("Travel", "\u{2708}\u{FE0F}", "#87CEEB", 9));
    v.push(default_category("Other", "\u{1F4E6}", "#D3D3D3", 10));
    assert forall|i: int| 0 <= i < 10 implies is_default_category(#[trigger] v[i], i) by {
        assert(0 <= i < 10);
    }
    v
}

} // verus!
