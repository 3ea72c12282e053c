//! Which accessibility elements count as clickable, and how far the walk of
//! the accessibility tree goes.
//!
//! The walk itself reads the tree through the system's accessibility API
//! and runs in the helper process; for each element it asks `plan_node`
//! what to do with it and `traversal_should_stop` whether to go on.

use vstd::prelude::*;

use crate::text::str_eq;

verus! {

/// Default depth limit of the walk.
pub const DEFAULT_MAX_DEPTH: usize = 10;
/// Default limit on the number of elements collected.
pub const DEFAULT_MAX_ELEMENTS: usize = 500;

/// The walk's limits.
#[derive(Debug, Clone, Copy, PartialEq, Eq, Structural)]
pub struct TraversalLimits {
    pub max_depth: usize,
    pub max_elements: usize,
}

impl TraversalLimits {
    /// The default limits.
    pub fn new() -> (r: Self)
        ensures
            r.max_depth == DEFAULT_MAX_DEPTH,
            r.max_elements == DEFAULT_MAX_ELEMENTS,
    {
        TraversalLimits { max_depth: DEFAULT_MAX_DEPTH, max_elements: DEFAULT_MAX_ELEMENTS }
    }
}

impl Default for TraversalLimits {
    fn default() -> (r: Self)
        ensures
            r.max_depth == DEFAULT_MAX_DEPTH,
            r.max_elements == DEFAULT_MAX_ELEMENTS,
    {
        TraversalLimits::new()
    }
}

/// Sets both limits.
pub fn set_limits(limits: &mut TraversalLimits, max_depth: usize, max_elements: usize)
    ensures
        final(limits).max_depth == max_depth,
        final(limits).max_elements == max_elements,
{
    limits.max_depth = max_depth;
    limits.max_elements = max_elements;
}

/// The depth limit.
pub fn get_max_depth(limits: &TraversalLimits) -> (r: usize)
    ensures
        r == limits.max_depth,
{
    limits.max_depth
}

/// The element limit.
pub fn get_max_elements(limits: &TraversalLimits) -> (r: usize)
    ensures
        r == limits.max_elements,
{
    limits.max_elements
}

/// Whether the walk stops at an element: it is deeper than the depth limit,
/// or the element limit is reached.
pub open spec fn stops_at(depth: usize, collected: usize, limits: TraversalLimits) -> bool {
    depth > limits.max_depth || collected >= limits.max_elements
}

/// Whether the walk stops at an element.
pub fn traversal_should_stop(depth: usize, collected: usize, limits: &TraversalLimits) -> (r: bool)
    ensures
        r == stops_at(depth, collected, *limits),
{
    depth > get_max_depth(limits) || collected >= get_max_elements(limits)
}

/// The roles that are clickable by themselves.
pub open spec fn clickable_roles() -> Seq<Seq<char>> {
    seq![
        "AXButton"@,
        "AXLink"@,
        "AXMenuItem"@,
        "AXMenuBarItem"@,
        "AXMenuButton"@,
        "AXCheckBox"@,
        "AXRadioButton"@,
        "AXPopUpButton"@,
        "AXComboBox"@,
        "AXTextField"@,
        "AXTextArea"@,
        "AXStaticText"@,
        "AXImage"@,
        "AXCell"@,
        "AXRow"@,
        "AXTab"@,
        "AXToolbarButton"@,
        "AXDisclosureTriangle"@,
        "AXIncrementor"@,
        "AXSlider"@,
        "AXHeading"@,
    ]
}

/// Whether a role is one of the clickable roles.
pub fn is_clickable_role(role: &str) -> (r: bool)
    ensures
        r == clickable_roles().contains(role@),
{
    let ghost roles = clickable_roles();
    let ghost mut witness: int = -1;
    let r = if str_eq(role, "AXButton") {
        proof { witness = 0; }
        true
    } else if str_eq(role, "AXLink") {
        proof { witness = 1; }
        true
    } else if str_eq(role, "AXMenuItem") {
        proof { witness = 2; }
        true
    } else if str_eq(role, "AXMenuBarItem") {
        proof { witness = 3; }
        true
    } else if str_eq(role, "AXMenuButton") {
        proof { witness = 4; }
        true
    } else if str_eq(role, "AXCheckBox") {
        proof { witness = 5; }
        true
    } else if str_eq(role, "AXRadioButton") {
        proof { witness = 6; }
        true
    } else if str_eq(role, "AXPopUpButton") {
        proof { witness = 7; }
        true
    } else if str_eq(role, "AXComboBox") {
        proof { witness = 8; }
        true
    } else if str_eq(role, "AXTextField") {
        proof { witness = 9; }
        true
    } else if str_eq(role, "AXTextArea") {
        proof { witness = 10; }
        true
    } else if str_eq(role, "AXStaticText") {
        proof { witness = 11; }
        true
    } else if str_eq(role, "AXImage") {
        proof { witness = 12; }
        true
    } else if str_eq(role, "AXCell") {
        proof { witness = 13; }
        true
    } else if str_eq(role, "AXRow") {
        proof { witness = 14; }
        true
    } else if str_eq(role, "AXTab") {
        proof { witness = 15; }
        true
    } else if str_eq(role, "AXToolbarButton") {
        proof { witness = 16; }
        true
    } else if str_eq(role, "AXDisclosureTriangle") {
        proof { witness = 17; }
        true
    } else if str_eq(role, "AXIncrementor") {
        proof { witness = 18; }
        true
    } else if str_eq(role, "AXSlider") {
        proof { witness = 19; }
        true
    } else if str_eq(role, "AXHeading") {
        proof { witness = 20; }
        true
    } else {
        false
    };
    proof {
        if r {
            assert(0 <= witness < roles.len() && roles[witness] == role@);
        } else {
            assert forall|i: int| 0 <= i < roles.len() implies roles[i] != role@ by {}
        }
    }
    r
}

/// Roles never collected themselves, though their children are visited.
pub open spec fn container_role(role: Seq<char>) -> bool {
    role == "AXMenu"@ || role == "AXMenuBar"@ || role == "AXBusyIndicator"@ || role
        == "AXProgressIndicator"@ || role == "AXValueIndicator"@ || role == "AXScrollBar"@ || role
        == "AXOutline"@ || role == "AXScrollArea"@ || role == "AXSplitGroup"@ || role == "AXGroup"@
}

/// Roles inside a row that add nothing to clicking the row.
pub open spec fn row_content_role(role: Seq<char>) -> bool {
    role == "AXCell"@ || role == "AXStaticText"@ || role == "AXImage"@
}

/// Roles whose press actions are worth reading.
pub open spec fn action_checked_role(role: Seq<char>) -> bool {
    role == "AXButton"@ || role == "AXLink"@ || role == "AXMenuItem"@ || role == "AXMenuButton"@
        || role == "AXCheckBox"@ || role == "AXRadioButton"@ || role == "AXPopUpButton"@ || role
        == "AXDisclosureTriangle"@ || role == "AXToolbarButton"@ || role == "AXStaticText"@ || role
        == "AXImage"@ || role == "AXHeading"@ || role == "AXCell"@ || role == "AXRow"@
}

/// Whether an element is collected.
#[derive(Debug, Clone, Copy, PartialEq, Eq, Structural)]
pub enum Clickability {
    /// Never.
    Never,
    /// When it is visible and inside the window.
    Always,
    /// When it also offers a press or show-menu action.
    IfPressable,
}

/// What the walk does with an element.
#[derive(Debug, Clone, Copy, PartialEq, Eq, Structural)]
pub enum NodePlan {
    /// An element without a (known) role: neither collected nor entered.
    Skip,
    /// Collect the element as `clickable` says; a row is titled from its
    /// children and not entered, anything else is entered.
    Visit { clickable: Clickability, is_row: bool },
}

/// What the walk does with an element of `role`, inside a row or not.
pub open spec fn node_plan(role: Seq<char>, inside_row: bool) -> NodePlan {
    if role.len() == 0 || role == "AXUnknown"@ {
        NodePlan::Skip
    } else {
        let clickable = if container_role(role) || (inside_row && row_content_role(role)) {
            Clickability::Never
        } else if clickable_roles().contains(role) {
            Clickability::Always
        } else if action_checked_role(role) {
            Clickability::IfPressable
        } else {
            Clickability::Never
        };
        NodePlan::Visit { clickable, is_row: role == "AXRow"@ }
    }
}

fn is_container_role(role: &str) -> (r: bool)
    ensures
        r == container_role(role@),
{
    str_eq(role, "AXMenu") || str_eq(role, "AXMenuBar") || str_eq(role, "AXBusyIndicator") || str_eq(
        role,
        "AXProgressIndicator",
    ) || str_eq(role, "AXValueIndicator") || str_eq(role, "AXScrollBar") || str_eq(role, "AXOutline")
        || str_eq(role, "AXScrollArea") || str_eq(role, "AXSplitGroup") || str_eq(role, "AXGroup")
}

fn is_action_checked_role(role: &str) -> (r: bool)
    ensures
        r == action_checked_role(role@),
{
    str_eq(role, "AXButton") || str_eq(role, "AXLink") || str_eq(role, "AXMenuItem") || str_eq(
        role,
        "AXMenuButton",
    ) || str_eq(role, "AXCheckBox") || str_eq(role, "AXRadioButton") || str_eq(role, "AXPopUpButton")
        || str_eq(role, "AXDisclosureTriangle") || str_eq(role, "AXToolbarButton") || str_eq(
        role,
        "AXStaticText",
    ) || str_eq(role, "AXImage") || str_eq(role, "AXHeading") || str_eq(role, "AXCell") || str_eq(
        role,
        "AXRow",
    )
}

/// What the walk does with an element of `role`.
pub fn plan_node(role: &str, inside_row: bool) -> (r: NodePlan)
    ensures
        r == node_plan(role@, inside_row),
{
    if role.unicode_len() == 0 || str_eq(role, "AXUnknown") {
        return NodePlan::Skip;
    }
    let row_content = str_eq(role, "AXCell") || str_eq(role, "AXStaticText") || str_eq(role, "AXImage");
    let clickable = if is_container_role(role) || (inside_row && row_content) {
        Clickability::Never
    } else if is_clickable_role(role) {
        Clickability::Always
    } else if is_action_checked_role(role) {
        Clickability::IfPressable
    } else {
        Clickability::Never
    };
    NodePlan::Visit { clickable, is_row: str_eq(role, "AXRow") }
}

/// Roles whose children never hold a popup menu.
pub open spec fn menu_free_role(role: Seq<char>) -> bool {
    role == "AXStaticText"@ || role == "AXImage"@ || role == "AXTextField"@ || role == "AXTextArea"@
}

/// Whether the search for an open popup menu goes into an element's
/// children: not below depth three, and not into text, images or fields.
pub open spec fn menu_search_enters(role: Seq<char>, depth: usize) -> bool {
    depth <= 3 && !menu_free_role(role)
}

/// Whether the search for an open popup menu goes into an element's
/// children.
pub fn should_search_for_menus(role: &str, depth: usize) -> (r: bool)
    ensures
        r == menu_search_enters(role@, depth),
{
    depth <= 3 && !(str_eq(role, "AXStaticText") || str_eq(role, "AXImage") || str_eq(role, "AXTextField")
        || str_eq(role, "AXTextArea"))
}

/// What the walk does with some roles, wherever they are: a button is
/// always collected and entered; a group is entered but never collected; a
/// row is collected and titled from its children; a cell is collected
/// except inside a row; an element without a role is skipped.
#[verifier::rlimit(60)]
#[verifier::spinoff_prover]
pub proof fn lemma_node_plans(inside_row: bool)
    ensures
        node_plan("AXButton"@, inside_row) == (NodePlan::Visit { clickable: Clickability::Always, is_row: false }),
        node_plan("AXGroup"@, inside_row) == (NodePlan::Visit { clickable: Clickability::Never, is_row: false }),
        node_plan("AXRow"@, inside_row) == (NodePlan::Visit { clickable: Clickability::Always, is_row: true }),
        node_plan("AXCell"@, true) == (NodePlan::Visit { clickable: Clickability::Never, is_row: false }),
        node_plan("AXCell"@, false) == (NodePlan::Visit { clickable: Clickability::Always, is_row: false }),
        node_plan(Seq::<char>::empty(), inside_row) == NodePlan::Skip,
{
    reveal_strlit("AXBusyIndicator");
    reveal_strlit("AXButton");
    reveal_strlit("AXCell");
    reveal_strlit("AXCheckBox");
    reveal_strlit("AXComboBox");
    reveal_strlit("AXDisclosureTriangle");
    reveal_strlit("AXGroup");
    reveal_strlit("AXHeading");
    reveal_strlit("AXImage");
    reveal_strlit("AXIncrementor");
    reveal_strlit("AXLink");
    reveal_strlit("AXMenu");
    reveal_strlit("AXMenuBar");
    reveal_strlit("AXMenuBarItem");
    reveal_strlit("AXMenuButton");
    reveal_strlit("AXMenuItem");
    reveal_strlit("AXOutline");
    reveal_strlit("AXPopUpButton");
    reveal_strlit("AXProgressIndicator");
    reveal_strlit("AXRadioButton");
    reveal_strlit("AXRow");
    reveal_strlit("AXScrollArea");
    reveal_strlit("AXScrollBar");
    reveal_strlit("AXSlider");
    reveal_strlit("AXSplitGroup");
    reveal_strlit("AXStaticText");
    reveal_strlit("AXTab");
    reveal_strlit("AXTextArea");
    reveal_strlit("AXTextField");
    reveal_strlit("AXToolbarButton");
    reveal_strlit("AXUnknown");
    reveal_strlit("AXValueIndicator");
    reveal_strlit("AXUnknown");
    assert(clickable_roles()[0] == "AXButton"@);
    assert(clickable_roles()[14] == "AXRow"@);
    assert(clickable_roles()[13] == "AXCell"@);
    assert("AXCell"@[2] != "AXMenu"@[2]);
    assert(!container_role("AXCell"@));
}

/// Every role whose press actions are read is clickable by itself, so the
/// walk never needs to read them: no role is collected only if pressable.
pub proof fn lemma_no_role_needs_actions(role: Seq<char>, inside_row: bool)
    ensures
        !(node_plan(role, inside_row) matches NodePlan::Visit { clickable: Clickability::IfPressable, .. }),
{
    if action_checked_role(role) {
        let roles = clickable_roles();
        if role == "AXButton"@ { assert(roles[0] == role); }
        else if role == "AXLink"@ { assert(roles[1] == role); }
        else if role == "AXMenuItem"@ { assert(roles[2] == role); }
        else if role == "AXMenuButton"@ { assert(roles[4] == role); }
        else if role == "AXCheckBox"@ { assert(roles[5] == role); }
        else if role == "AXRadioButton"@ { assert(roles[6] == role); }
        else if role == "AXPopUpButton"@ { assert(roles[7] == role); }
        else if role == "AXStaticText"@ { assert(roles[11] == role); }
        else if role == "AXImage"@ { assert(roles[12] == role); }
        else if role == "AXCell"@ { assert(roles[13] == role); }
        else if role == "AXRow"@ { assert(roles[14] == role); }
        else if role == "AXToolbarButton"@ { assert(roles[16] == role); }
        else if role == "AXDisclosureTriangle"@ { assert(roles[17] == role); }
        else { assert(roles[20] == role); }
    }
}

/// Inside a row, cells, static text and images are never collected.
pub proof fn lemma_row_contents_not_collected(role: Seq<char>)
    requires
        row_content_role(role),
    ensures
        node_plan(role, true) matches NodePlan::Visit { clickable: Clickability::Never, .. },
{
    reveal_strlit("AXCell");
    reveal_strlit("AXStaticText");
    reveal_strlit("AXImage");
    reveal_strlit("AXUnknown");
}

} // verus!
