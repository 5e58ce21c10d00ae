//! Contacts and the sheet they are read from.
//!
//! A sheet is a rectangle of cells whose first row names the columns. The
//! columns `name` and `number` (or `phone`) are required, `email` and
//! `company` are optional; titles are matched without regard to case. Rows
//! that lack a name or a phone are skipped.

use vstd::prelude::*;
use vstd::hash_map::StringHashMap;
use crate::text::{lowercase, to_lowercase, same_text, ends_with, push_text, push_decimal, decimal};

verus! {

/// Trusted: makes `calamine::Range`, the rectangle of cells that a sheet is
/// read into, known as a type of which nothing is seen.
#[verifier::external_type_specification]
#[verifier::external_body]
#[verifier::reject_recursive_types(T)]
pub struct ExRange<T>(calamine::Range<T>);

/// Trusted: makes `calamine::Data`, the value of one cell, known as a type of
/// which nothing is seen.
#[verifier::external_type_specification]
#[verifier::external_body]
pub struct ExData(calamine::Data);

/// The rows of a sheet, top to bottom. Each cell is the text it holds, or
/// `None` where it holds anything but text.
pub uninterp spec fn sheet_rows(sheet: calamine::Range<calamine::Data>) -> Seq<
    Seq<Option<Seq<char>>>,
>;

/// Hands out the rows of a sheet as plain values.
///
/// Trusted: walks `calamine::Range::rows` and reads each cell with
/// `calamine::DataType::get_string`, which gives the text of a string cell and
/// `None` for every other cell. The contract names that result.
#[verifier::external_body]
fn read_rows(sheet: &calamine::Range<calamine::Data>) -> (rows: Vec<Vec<Option<String>>>)
    ensures
        rows.deep_view() == sheet_rows(*sheet),
{
    sheet.rows().map(
        |row| row.iter().map(|cell| calamine::DataType::get_string(cell).map(String::from)).collect(),
    ).collect()
}

/// One person to write to.
#[derive(Debug)]
pub struct Contact {
    pub name: String,
    pub phone: String,
    pub email: Option<String>,
    pub company: Option<String>,
}

/// What a [`Contact`] holds, as plain sequences.
pub struct ContactView {
    pub name: Seq<char>,
    pub phone: Seq<char>,
    pub email: Option<Seq<char>>,
    pub company: Option<Seq<char>>,
}

impl View for Contact {
    type V = ContactView;

    open spec fn view(&self) -> ContactView {
        ContactView {
            name: self.name@,
            phone: self.phone@,
            email: self.email.deep_view(),
            company: self.company.deep_view(),
        }
    }
}

/// The views of a run of contacts, in order.
pub open spec fn contact_views(contacts: Seq<Contact>) -> Seq<ContactView> {
    contacts.map_values(|c: Contact| c@)
}

fn clone_optional(text: &Option<String>) -> (out: Option<String>)
    ensures
        out.deep_view() == text.deep_view(),
{
    match text {
        Some(t) => Some(t.clone()),
        None => None,
    }
}

impl Clone for Contact {
    fn clone(&self) -> (out: Self)
        ensures
            out@ == self@,
    {
        Contact {
            name: self.name.clone(),
            phone: self.phone.clone(),
            email: clone_optional(&self.email),
            company: clone_optional(&self.company),
        }
    }
}

impl Contact {
    /// The fields of a contact under the keys that a template can name.
    pub open spec fn field_map(c: ContactView) -> Map<Seq<char>, Seq<char>> {
        let base = Map::<Seq<char>, Seq<char>>::empty().insert("name"@, c.name).insert(
            "phone"@,
            c.phone,
        );
        let with_email = match c.email {
            Some(e) => base.insert("email"@, e),
            None => base,
        };
        match c.company {
            Some(e) => with_email.insert("company"@, e),
            None => with_email,
        }
    }

    /// The fields of this contact: `name` and `phone`, and `email` and
    /// `company` where the contact has them.
    pub fn fields(&self) -> (out: StringHashMap<String>)
        ensures
            field_texts(out@) == Self::field_map(self@),
    {
        let mut out: StringHashMap<String> = StringHashMap::new();
        out.insert("name".to_owned(), self.name.clone());
        out.insert("phone".to_owned(), self.phone.clone());
        match &self.email {
            Some(e) => {
                out.insert("email".to_owned(), e.clone());
            },
            None => {},
        }
        match &self.company {
            Some(e) => {
                out.insert("company".to_owned(), e.clone());
            },
            None => {},
        }
        out
    }
}

/// A field mapping with each value taken as plain text.
pub open spec fn field_texts(fields: Map<Seq<char>, String>) -> Map<Seq<char>, Seq<char>> {
    fields.map_values(|v: String| v@)
}

/// The mapping that the first `n` pairs of key and value give. Of two pairs
/// with one key the later counts.
pub open spec fn pairs_map(pairs: Seq<(&str, &str)>, n: int) -> Map<Seq<char>, Seq<char>>
    decreases n,
{
    if n <= 0 {
        Map::empty()
    } else {
        pairs_map(pairs, n - 1).insert(pairs[n - 1].0@, pairs[n - 1].1@)
    }
}

/// Builds a field mapping from pairs of key and value.
pub fn fields_of(pairs: &[(&str, &str)]) -> (out: StringHashMap<String>)
    ensures
        field_texts(out@) == pairs_map(pairs@, pairs@.len() as int),
{
    let mut out: StringHashMap<String> = StringHashMap::new();
    let mut i: usize = 0;
    while i < pairs.len()
        invariant
            i <= pairs.len(),
            field_texts(out@) == pairs_map(pairs@, i as int),
        decreases pairs.len() - i,
    {
        let (key, value) = pairs[i];
        out.insert(key.to_owned(), value.to_owned());
        i += 1;
    }
    out
}

/// Why a file could not be turned into contacts.
#[derive(Clone, Copy, Debug, PartialEq, Eq, Structural)]
pub enum SourceError {
    /// No file stands at the path. Reported by whoever reads the file.
    FileMissing,
    /// The path ends neither in `.xlsx` nor in `.xls`.
    NotExcelFile,
    /// The file could not be opened as a workbook. Reported by whoever reads
    /// the file.
    Unreadable,
    /// The workbook has no sheet. Reported by whoever reads the file.
    NoSheets,
    /// The first sheet could not be read. Reported by whoever reads the
    /// file.
    SheetUnreadable,
    /// The sheet has no rows.
    EmptySheet,
    /// No column is titled `name`.
    MissingNameColumn,
    /// No column is titled `number` or `phone`.
    MissingPhoneColumn,
    /// Every row lacks a name or a phone.
    NoValidContacts,
    /// The path has no file name with a stem and an extension.
    NoFileName,
}

/// What a user is told of an error on the file at `path`.
pub open spec fn source_error_text(error: SourceError, path: Seq<char>) -> Seq<char> {
    match error {
        SourceError::FileMissing => "O arquivo "@ + path + " não existe"@,
        SourceError::NotExcelFile => "O arquivo "@ + path + " não é um arquivo Excel válido"@,
        SourceError::Unreadable => "Erro ao abrir o arquivo Excel: "@ + path,
        SourceError::NoSheets => "O arquivo Excel não contém planilhas"@,
        SourceError::SheetUnreadable => "Erro ao acessar a planilha"@,
        SourceError::EmptySheet => "A planilha está vazia"@,
        SourceError::MissingNameColumn => "Coluna 'Name' não encontrada"@,
        SourceError::MissingPhoneColumn => "Coluna 'Number' ou 'Phone' não encontrada"@,
        SourceError::NoValidContacts => "Nenhum contato válido encontrado no arquivo"@,
        SourceError::NoFileName => "O arquivo "@ + path + " não tem nome e extensão"@,
    }
}

impl SourceError {
    /// What a user is told of this error on the file at `path`.
    pub fn message(&self, path: &str) -> (text: String)
        ensures
            text@ == source_error_text(*self, path@),
    {
        match self {
            SourceError::FileMissing => {
                let mut text = "O arquivo ".to_owned();
                push_text(&mut text, path);
                push_text(&mut text, " não existe");
                text
            },
            SourceError::NotExcelFile => {
                let mut text = "O arquivo ".to_owned();
                push_text(&mut text, path);
                push_text(&mut text, " não é um arquivo Excel válido");
                text
            },
            SourceError::Unreadable => {
                let mut text = "Erro ao abrir o arquivo Excel: ".to_owned();
                push_text(&mut text, path);
                text
            },
            SourceError::NoSheets => "O arquivo Excel não contém planilhas".to_owned(),
            SourceError::SheetUnreadable => "Erro ao acessar a planilha".to_owned(),
            SourceError::EmptySheet => "A planilha está vazia".to_owned(),
            SourceError::MissingNameColumn => "Coluna 'Name' não encontrada".to_owned(),
            SourceError::MissingPhoneColumn => "Coluna 'Number' ou 'Phone' não encontrada".to_owned(),
            SourceError::NoValidContacts => "Nenhum contato válido encontrado no arquivo".to_owned(),
            SourceError::NoFileName => {
                let mut text = "O arquivo ".to_owned();
                push_text(&mut text, path);
                push_text(&mut text, " não tem nome e extensão");
                text
            },
        }
    }
}

/// The fields that a column can carry.
#[derive(Clone, Copy, Debug, PartialEq, Eq, Structural)]
pub enum Field {
    Name,
    Phone,
    Email,
    Company,
}

/// Where each field stands in a row.
#[derive(Clone, Copy, Debug, PartialEq, Eq, Structural)]
pub struct Columns {
    pub name: usize,
    pub phone: usize,
    pub email: Option<usize>,
    pub company: Option<usize>,
}

/// The field that a column title in lowercase stands for.
pub open spec fn title_field(lower: Seq<char>) -> Option<Field> {
    if lower == "name"@ {
        Some(Field::Name)
    } else if lower == "number"@ || lower == "phone"@ {
        Some(Field::Phone)
    } else if lower == "email"@ {
        Some(Field::Email)
    } else if lower == "company"@ {
        Some(Field::Company)
    } else {
        None
    }
}

/// The field that a header cell stands for: its title is read without regard
/// to case, and a cell without text stands for none.
pub open spec fn header_field(cell: Option<Seq<char>>) -> Option<Field> {
    match cell {
        Some(title) => title_field(lowercase(title)),
        None => None,
    }
}

/// The last of the first `n` header cells that stands for `field`.
pub open spec fn column_of(header: Seq<Option<Seq<char>>>, field: Field, n: int) -> Option<usize>
    decreases n,
{
    if n <= 0 {
        None
    } else if header_field(header[n - 1]) == Some(field) {
        Some((n - 1) as usize)
    } else {
        column_of(header, field, n - 1)
    }
}

/// The columns that a header row gives, or the required column it lacks.
pub open spec fn columns_of(header: Seq<Option<Seq<char>>>) -> Result<Columns, SourceError> {
    let n = header.len() as int;
    match (column_of(header, Field::Name, n), column_of(header, Field::Phone, n)) {
        (None, _) => Err(SourceError::MissingNameColumn),
        (Some(_), None) => Err(SourceError::MissingPhoneColumn),
        (Some(name), Some(phone)) => Ok(
            (Columns {
                name,
                phone,
                email: column_of(header, Field::Email, n),
                company: column_of(header, Field::Company, n),
            }),
        ),
    }
}

/// The text of a required cell; a cell without text counts as empty.
pub open spec fn required_cell(row: Seq<Option<Seq<char>>>, col: int) -> Seq<char> {
    match row[col] {
        Some(t) => t,
        None => Seq::empty(),
    }
}

/// The text of an optional cell, if the column exists and the cell holds text.
pub open spec fn optional_cell(row: Seq<Option<Seq<char>>>, col: Option<usize>) -> Option<
    Seq<char>,
> {
    match col {
        Some(c) => if c < row.len() {
            row[c as int]
        } else {
            None
        },
        None => None,
    }
}

/// The contact that a data row gives, or `None` where the row is too short or
/// lacks a name or a phone.
pub open spec fn row_contact(row: Seq<Option<Seq<char>>>, cols: Columns) -> Option<ContactView> {
    if row.len() <= cols.name || row.len() <= cols.phone {
        None
    } else {
        let name = required_cell(row, cols.name as int);
        let phone = required_cell(row, cols.phone as int);
        if name.len() == 0 || phone.len() == 0 {
            None
        } else {
            Some(
                ContactView {
                    name,
                    phone,
                    email: optional_cell(row, cols.email),
                    company: optional_cell(row, cols.company),
                },
            )
        }
    }
}

/// The contacts of the data rows among the first `n` rows, in row order. The
/// first row is the header and gives none.
pub open spec fn contacts_in(rows: Seq<Seq<Option<Seq<char>>>>, cols: Columns, n: int) -> Seq<
    ContactView,
>
    decreases n,
{
    if n <= 1 {
        Seq::empty()
    } else {
        let before = contacts_in(rows, cols, n - 1);
        match row_contact(rows[n - 1], cols) {
            Some(c) => before.push(c),
            None => before,
        }
    }
}

/// Whether a path names an Excel file by its ending.
pub open spec fn is_excel_path(path: Seq<char>) -> bool {
    ".xlsx"@.is_suffix_of(path) || ".xls"@.is_suffix_of(path)
}

/// The contacts that a sheet read from `path` gives, or why it gives none.
pub open spec fn loaded(path: Seq<char>, rows: Seq<Seq<Option<Seq<char>>>>) -> Result<
    Seq<ContactView>,
    SourceError,
> {
    if !is_excel_path(path) {
        Err(SourceError::NotExcelFile)
    } else if rows.len() == 0 {
        Err(SourceError::EmptySheet)
    } else {
        match columns_of(rows[0]) {
            Err(e) => Err(e),
            Ok(cols) => {
                let contacts = contacts_in(rows, cols, rows.len() as int);
                if contacts.len() == 0 {
                    Err(SourceError::NoValidContacts)
                } else {
                    Ok(contacts)
                }
            },
        }
    }
}

/// The field that a column title stands for, given the title in lowercase.
pub fn field_of_title(lower: &str) -> (field: Option<Field>)
    ensures
        field == title_field(lower@),
{
    if same_text(lower, "name") {
        Some(Field::Name)
    } else if same_text(lower, "number") || same_text(lower, "phone") {
        Some(Field::Phone)
    } else if same_text(lower, "email") {
        Some(Field::Email)
    } else if same_text(lower, "company") {
        Some(Field::Company)
    } else {
        None
    }
}

/// The field that a header cell stands for.
pub fn field_of_header(cell: &Option<String>) -> (field: Option<Field>)
    ensures
        field == header_field(cell.deep_view()),
{
    match cell {
        Some(title) => {
            let lower = to_lowercase(title.as_str());
            field_of_title(lower.as_str())
        },
        None => None,
    }
}

/// Finds the column of every field in a header row. Where two columns stand
/// for one field, the later one counts.
pub fn resolve_columns(header: &Vec<Option<String>>) -> (result: Result<Columns, SourceError>)
    ensures
        result == columns_of(header.deep_view()),
{
    let ghost cells = header.deep_view();
    let mut name: Option<usize> = None;
    let mut phone: Option<usize> = None;
    let mut email: Option<usize> = None;
    let mut company: Option<usize> = None;
    let mut i: usize = 0;
    while i < header.len()
        invariant
            i <= header.len(),
            cells == header.deep_view(),
            name == column_of(cells, Field::Name, i as int),
            phone == column_of(cells, Field::Phone, i as int),
            email == column_of(cells, Field::Email, i as int),
            company == column_of(cells, Field::Company, i as int),
        decreases header.len() - i,
    {
        match field_of_header(&header[i]) {
            Some(Field::Name) => {
                name = Some(i);
            },
            Some(Field::Phone) => {
                phone = Some(i);
            },
            Some(Field::Email) => {
                email = Some(i);
            },
            Some(Field::Company) => {
                company = Some(i);
            },
            None => {},
        }
        i += 1;
    }
    match (name, phone) {
        (None, _) => Err(SourceError::MissingNameColumn),
        (Some(_), None) => Err(SourceError::MissingPhoneColumn),
        (Some(name), Some(phone)) => Ok(Columns { name, phone, email, company }),
    }
}

fn required_text(row: &Vec<Option<String>>, col: usize) -> (out: String)
    requires
        col < row.len(),
    ensures
        out@ == required_cell(row.deep_view(), col as int),
{
    match &row[col] {
        Some(t) => t.clone(),
        None => String::new(),
    }
}

fn optional_text(row: &Vec<Option<String>>, col: Option<usize>) -> (out: Option<String>)
    ensures
        out.deep_view() == optional_cell(row.deep_view(), col),
{
    match col {
        Some(c) => if c < row.len() {
            clone_optional(&row[c])
        } else {
            None
        },
        None => None,
    }
}

/// Reads one data row.
pub fn contact_of_row(row: &Vec<Option<String>>, cols: Columns) -> (out: Option<Contact>)
    ensures
        match out {
            Some(c) => row_contact(row.deep_view(), cols) == Some(c@),
            None => row_contact(row.deep_view(), cols) is None,
        },
{
    if row.len() <= cols.name || row.len() <= cols.phone {
        return None;
    }
    let name = required_text(row, cols.name);
    let phone = required_text(row, cols.phone);
    if name.as_str().is_empty() || phone.as_str().is_empty() {
        return None;
    }
    let email = optional_text(row, cols.email);
    let company = optional_text(row, cols.company);
    Some(Contact { name, phone, email, company })
}

/// Whether `path` ends in `.xlsx` or `.xls`.
pub fn has_excel_ending(path: &str) -> (yes: bool)
    ensures
        yes == is_excel_path(path@),
{
    ends_with(path, ".xlsx") || ends_with(path, ".xls")
}

/// The contacts of one sheet, with the path the sheet was read from.
pub struct ExcelHandler {
    file_path: String,
    contacts: Vec<Contact>,
}

/// What an [`ExcelHandler`] holds, as plain sequences.
pub struct ExcelHandlerView {
    pub file_path: Seq<char>,
    pub contacts: Seq<ContactView>,
}

impl View for ExcelHandler {
    type V = ExcelHandlerView;

    closed spec fn view(&self) -> ExcelHandlerView {
        ExcelHandlerView { file_path: self.file_path@, contacts: contact_views(self.contacts@) }
    }
}

/// The text shown for an optional field in a preview.
pub open spec fn or_dash(text: Option<Seq<char>>) -> Seq<char> {
    match text {
        Some(t) => t,
        None => "-"@,
    }
}

/// The preview line of one contact.
pub open spec fn preview_line(c: ContactView) -> Seq<char> {
    c.name + " | "@ + c.phone + " | "@ + or_dash(c.email) + " | "@ + or_dash(c.company) + "\n"@
}

/// The preview lines of the first `n` contacts.
pub open spec fn preview_lines(contacts: Seq<ContactView>, n: int) -> Seq<char>
    decreases n,
{
    if n <= 0 {
        Seq::empty()
    } else {
        preview_lines(contacts, n - 1) + preview_line(contacts[n - 1])
    }
}

/// How many contacts a preview of at most `max_rows` rows shows.
pub open spec fn shown_rows(contacts: Seq<ContactView>, max_rows: usize) -> nat {
    if max_rows <= contacts.len() {
        max_rows as nat
    } else {
        contacts.len()
    }
}

/// The preview of a contact list: a title with both counts, the column
/// titles, a rule, and one line for each contact shown.
pub open spec fn preview_text(contacts: Seq<ContactView>, max_rows: usize) -> Seq<char> {
    "Prévia dos contatos (primeiros "@ + decimal(shown_rows(contacts, max_rows)) + " de "@
        + decimal(contacts.len()) + "):\n\n"@ + "Nome | Numero | Email | Empresa\n"@
        + "-----|--------|-------|--------\n"@ + preview_lines(
        contacts,
        shown_rows(contacts, max_rows) as int,
    )
}

/// The default path for the results of a sheet whose file has the given stem
/// and extension.
pub open spec fn results_path(stem: Seq<char>, extension: Seq<char>) -> Seq<char> {
    stem + "_resultados."@ + extension
}

/// The stem of the file that a path names, if it names one.
///
/// Trusted: stands for `std::path::Path::file_stem`. How a path splits into
/// its parts depends on the platform, so nothing is claimed of the result.
#[verifier::external_body]
fn path_stem(path: &str) -> (stem: Option<String>) {
    std::path::Path::new(path).file_stem().map(|s| s.to_string_lossy().into_owned())
}

/// The extension of the file that a path names, if it has one.
///
/// Trusted: stands for `std::path::Path::extension`. How a path splits into
/// its parts depends on the platform, so nothing is claimed of the result.
#[verifier::external_body]
fn path_extension(path: &str) -> (extension: Option<String>) {
    std::path::Path::new(path).extension().map(|s| s.to_string_lossy().into_owned())
}

/// The default results path, from the stem and the extension of the sheet's
/// file. Fails where either is missing.
pub fn default_results_path(stem: Option<String>, extension: Option<String>) -> (result: Result<
    String,
    SourceError,
>)
    ensures
        match result {
            Ok(path) => stem is Some && extension is Some && path@ == results_path(
                stem->0@,
                extension->0@,
            ),
            Err(e) => e == SourceError::NoFileName && (stem is None || extension is None),
        },
{
    match (stem, extension) {
        (Some(stem), Some(extension)) => {
            let mut path = stem;
            push_text(&mut path, "_resultados.");
            push_text(&mut path, extension.as_str());
            Ok(path)
        },
        _ => Err(SourceError::NoFileName),
    }
}

fn push_preview_line(out: &mut String, contact: &Contact)
    ensures
        final(out)@ == old(out)@ + preview_line(contact@),
{
    push_text(out, contact.name.as_str());
    push_text(out, " | ");
    push_text(out, contact.phone.as_str());
    push_text(out, " | ");
    match &contact.email {
        Some(e) => push_text(out, e.as_str()),
        None => push_text(out, "-"),
    }
    push_text(out, " | ");
    match &contact.company {
        Some(e) => push_text(out, e.as_str()),
        None => push_text(out, "-"),
    }
    push_text(out, "\n");
}

impl Clone for ExcelHandler {
    fn clone(&self) -> (out: Self)
        ensures
            out@ == self@,
    {
        proof {
            use_type_invariant(self);
        }
        let mut contacts: Vec<Contact> = Vec::new();
        let mut i: usize = 0;
        while i < self.contacts.len()
            invariant
                i <= self.contacts.len(),
                contact_views(contacts@) == contact_views(self.contacts@.take(i as int)),
                contacts@.len() == i,
                forall|k: int|
                    0 <= k < contacts@.len() ==> (#[trigger] contacts@[k])@ == self.contacts@[k]@,
            decreases self.contacts.len() - i,
        {
            let c = self.contacts[i].clone();
            contacts.push(c);
            i += 1;
        }
        assert(self.contacts@.take(self.contacts.len() as int) =~= self.contacts@);
        ExcelHandler { file_path: self.file_path.clone(), contacts }
    }
}

impl ExcelHandler {
    #[verifier::type_invariant]
    spec fn well_formed(self) -> bool {
        &&& is_excel_path(self.file_path@)
        &&& self.contacts@.len() > 0
        &&& forall|i: int|
            0 <= i < self.contacts@.len() ==> (#[trigger] self.contacts@[i]).name@.len() > 0
                && self.contacts@[i].phone@.len() > 0
    }

    /// Builds the contact list from the rows of a sheet, the header row
    /// first. Succeeds exactly where the path names an Excel file, the header
    /// has the required columns and at least one row gives a contact.
    pub fn from_rows(file_path: &str, rows: &Vec<Vec<Option<String>>>) -> (result: Result<
        ExcelHandler,
        SourceError,
    >)
        ensures
            match result {
                Ok(handler) => loaded(file_path@, rows.deep_view()) == Ok::<
                    Seq<ContactView>,
                    SourceError,
                >(handler@.contacts) && handler@.file_path == file_path@,
                Err(e) => loaded(file_path@, rows.deep_view()) == Err::<
                    Seq<ContactView>,
                    SourceError,
                >(e),
            },
    {
        if !has_excel_ending(file_path) {
            return Err(SourceError::NotExcelFile);
        }
        if rows.len() == 0 {
            return Err(SourceError::EmptySheet);
        }
        let cols = match resolve_columns(&rows[0]) {
            Ok(cols) => cols,
            Err(e) => {
                return Err(e);
            },
        };
        let ghost cells = rows.deep_view();
        let mut contacts: Vec<Contact> = Vec::new();
        let mut i: usize = 1;
        while i < rows.len()
            invariant
                1 <= i <= rows.len(),
                cells == rows.deep_view(),
                contact_views(contacts@) == contacts_in(cells, cols, i as int),
                forall|k: int|
                    0 <= k < contacts@.len() ==> (#[trigger] contacts@[k]).name@.len() > 0
                        && contacts@[k].phone@.len() > 0,
            decreases rows.len() - i,
        {
            match contact_of_row(&rows[i], cols) {
                Some(c) => {
                    contacts.push(c);
                },
                None => {},
            }
            i += 1;
        }
        if contacts.len() == 0 {
            return Err(SourceError::NoValidContacts);
        }
        Ok(ExcelHandler { file_path: file_path.to_owned(), contacts })
    }

    /// Builds the contact list from a sheet read from `file_path`.
    pub fn new(file_path: &str, sheet: &calamine::Range<calamine::Data>) -> (result: Result<
        ExcelHandler,
        SourceError,
    >)
        ensures
            match result {
                Ok(handler) => loaded(file_path@, sheet_rows(*sheet)) == Ok::<
                    Seq<ContactView>,
                    SourceError,
                >(handler@.contacts) && handler@.file_path == file_path@,
                Err(e) => loaded(file_path@, sheet_rows(*sheet)) == Err::<
                    Seq<ContactView>,
                    SourceError,
                >(e),
            },
    {
        let rows = read_rows(sheet);
        Self::from_rows(file_path, &rows)
    }

    /// The contacts, in row order. There is at least one, and each has a name
    /// and a phone.
    pub fn get_contacts(&self) -> (contacts: &[Contact])
        ensures
            contact_views(contacts@) == self@.contacts,
            contacts@.len() > 0,
            forall|i: int|
                0 <= i < contacts@.len() ==> (#[trigger] contacts@[i]).name@.len() > 0
                    && contacts@[i].phone@.len() > 0,
    {
        proof {
            use_type_invariant(self);
        }
        self.contacts.as_slice()
    }

    /// The number of contacts.
    pub fn get_contact_count(&self) -> (count: usize)
        ensures
            count == self@.contacts.len(),
            count > 0,
    {
        proof {
            use_type_invariant(self);
        }
        self.contacts.len()
    }

    /// A table of the first `max_rows` contacts.
    pub fn get_preview(&self, max_rows: usize) -> (preview: String)
        ensures
            preview@ == preview_text(self@.contacts, max_rows),
    {
        let total = self.contacts.len();
        let shown = if max_rows <= total {
            max_rows
        } else {
            total
        };
        let mut preview = String::new();
        push_text(&mut preview, "Prévia dos contatos (primeiros ");
        push_decimal(&mut preview, shown);
        push_text(&mut preview, " de ");
        push_decimal(&mut preview, total);
        push_text(&mut preview, "):\n\n");
        push_text(&mut preview, "Nome | Numero | Email | Empresa\n");
        push_text(&mut preview, "-----|--------|-------|--------\n");
        let ghost head = preview@;
        let mut i: usize = 0;
        while i < shown
            invariant
                i <= shown <= self.contacts.len(),
                preview@ == head + preview_lines(self@.contacts, i as int),
            decreases shown - i,
        {
            push_preview_line(&mut preview, &self.contacts[i]);
            i += 1;
        }
        preview
    }

    /// The path under which the results of this sheet are kept: the one
    /// given, or else one beside the sheet's own file, made of its stem and
    /// its extension.
    pub fn save_results(&self, results: &[(usize, String)], output_path: Option<&str>) -> (result:
        Result<String, SourceError>)
        ensures
            match output_path {
                Some(path) => result matches Ok(out) && out@ == path@,
                None => match result {
                    Ok(out) => exists|stem: Seq<char>, extension: Seq<char>|
                        out@ == results_path(stem, extension),
                    Err(e) => e == SourceError::NoFileName,
                },
            },
    {
        match output_path {
            Some(path) => Ok(path.to_owned()),
            None => {
                let stem = path_stem(self.file_path.as_str());
                let extension = path_extension(self.file_path.as_str());
                default_results_path(stem, extension)
            },
        }
    }
}

} // verus!
