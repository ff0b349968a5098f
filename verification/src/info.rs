use vstd::prelude::*;

verus! {

/// The text of a table with rounded corners, a rule below its first row, and
/// one row for each of `records`, as tabled draws it.
pub uninterp spec fn rounded_table(records: Seq<Seq<Seq<char>>>) -> Seq<char>;

/// Draws `records` as a table with tabled: `Builder::from` takes the rows,
/// `build` makes the table, `Style::rounded` is applied, and the table is
/// written to a string. The text depends on the rows alone; the contract
/// gives it a name and claims nothing else of it.
#[verifier::external_body]
fn render_rounded(records: &Vec<Vec<String>>) -> (table: String)
    ensures
        table@ == rounded_table(records.deep_view()),
{
    tabled::builder::Builder::from(records.clone())
        .build()
        .with(tabled::settings::Style::rounded())
        .to_string()
}

/// A text that the device gave, or the words that stand for one it did not
/// give.
pub open spec fn text_or_not_found(text: Option<String>) -> Seq<char> {
    match text {
        Some(given) => given@,
        None => "Not Found"@,
    }
}

/// The rows of the device table: the headings, and below them the language
/// and the three texts read in it.
pub open spec fn device_info_rows(
    language: Seq<char>,
    manufacturer: Option<String>,
    product: Option<String>,
    serial_number: Option<String>,
) -> Seq<Seq<Seq<char>>> {
    seq![
        seq!["Language"@, "Manufacturer"@, "Product"@, "Serial Number"@],
        seq![
            language,
            text_or_not_found(manufacturer),
            text_or_not_found(product),
            text_or_not_found(serial_number),
        ],
    ]
}

/// A text that the device gave, or "Not Found" in its place.
pub fn or_not_found(text: Option<String>) -> (shown: String)
    ensures
        shown@ == text_or_not_found(text),
{
    match text {
        Some(given) => given,
        None => "Not Found".to_owned(),
    }
}

/// The rows of the device table. A text that could not be read from the
/// device is shown as "Not Found".
pub fn device_info_records(
    language: String,
    manufacturer: Option<String>,
    product: Option<String>,
    serial_number: Option<String>,
) -> (records: Vec<Vec<String>>)
    ensures
        records.deep_view() == device_info_rows(language@, manufacturer, product, serial_number),
{
    let mut headings: Vec<String> = Vec::new();
    headings.push("Language".to_owned());
    headings.push("Manufacturer".to_owned());
    headings.push("Product".to_owned());
    headings.push("Serial Number".to_owned());
    let mut values: Vec<String> = Vec::new();
    let ghost rows = device_info_rows(language@, manufacturer, product, serial_number);
    values.push(language);
    values.push(or_not_found(manufacturer));
    values.push(or_not_found(product));
    values.push(or_not_found(serial_number));
    let mut records: Vec<Vec<String>> = Vec::new();
    assert(headings.deep_view() =~= rows[0]);
    assert(values.deep_view() =~= rows[1]);
    records.push(headings);
    records.push(values);
    assert(records.deep_view() =~= rows);
    records
}

/// The device table as text, drawn with rounded corners; nothing where the
/// device names no language, since its texts cannot be read then.
pub fn print_device_info(
    language: Option<String>,
    manufacturer: Option<String>,
    product: Option<String>,
    serial_number: Option<String>,
) -> (table: Option<String>)
    ensures
        match language {
            Some(name) => table.is_some() && table.unwrap()@ == rounded_table(
                device_info_rows(name@, manufacturer, product, serial_number),
            ),
            None => table.is_none(),
        },
{
    match language {
        Some(name) => {
            let records = device_info_records(name, manufacturer, product, serial_number);
            Some(render_rounded(&records))
        },
        None => None,
    }
}

} // verus!
