//! What the help screen lists.
use vstd::prelude::*;

verus! {

/// A line of the help screen: what can be done, and the key that does it.
#[derive(Clone, Debug)]
pub struct HelpRow {
    pub action: String,
    pub key: String,
}

/// The title of the help screen.
pub fn help_title() -> (r: String)
    ensures
        r@ == "Help (press <Esc> to go back)"@,
{
    String::from_str("Help (press <Esc> to go back)")
}

/// The column headings of the help screen.
pub fn help_header() -> (r: HelpRow)
    ensures
        r.action@ == "Action"@,
        r.key@ == "Key"@,
{
    HelpRow { action: String::from_str("Action"), key: String::from_str("Key") }
}

fn row(action: &str, key: &str) -> (r: HelpRow)
    ensures
        r.action@ == action@,
        r.key@ == key@,
{
    HelpRow { action: String::from_str(action), key: String::from_str(key) }
}

/// The lines of the help screen, in order.
pub fn help_rows() -> (rows: Vec<HelpRow>)
    ensures
        rows.len() == 5,
        rows[0].action@ == "Select Previous Command"@,
        rows[0].key@ == "<Up Arrow>"@,
        rows[1].action@ == "Select next Command"@,
        rows[1].key@ == "<Down Arrow>"@,
        rows[2].action@ == "Restart Command"@,
        rows[2].key@ == "r"@,
        rows[3].action@ == "Kill Command"@,
        rows[3].key@ == "k"@,
        rows[4].action@ == "Quit bang"@,
        rows[4].key@ == "q"@,
{
    let mut rows: Vec<HelpRow> = Vec::new();
    rows.push(row("Select Previous Command", "<Up Arrow>"));
    rows.push(row("Select next Command", "<Down Arrow>"));
    rows.push(row("Restart Command", "r"));
    rows.push(row("Kill Command", "k"));
    rows.push(row("Quit bang", "q"));
    rows
}

} // verus!
