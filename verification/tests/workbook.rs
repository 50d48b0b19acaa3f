use calamine::{open_workbook_auto_from_rs, Cell, Data, Range, Reader};
use parse_xlsx::reader::{first_sheet_name, read_table, table_from_rows, FirstSheet, ReadError};
use parse_xlsx::record::Record;
use parse_xlsx::schema::{schema_for, MatchPolicy, RecordKind, Schema};
use parse_xlsx::validate::{
    read_excel_file, validate, validate_arquivistico, validate_bibliografico,
    validate_from_schema, validate_museologico, ValidationError, ValidationReport,
};
use std::io::Cursor;

fn strings(items: &[&str]) -> Vec<String> {
    items.iter().map(|s| s.to_string()).collect()
}

fn crc32(data: &[u8]) -> u32 {
    let mut crc: u32 = 0xFFFF_FFFF;
    for &b in data {
        crc ^= b as u32;
        for _ in 0..8 {
            crc = if crc & 1 == 1 { (crc >> 1) ^ 0xEDB8_8320 } else { crc >> 1 };
        }
    }
    !crc
}

fn zip_stored(files: &[(&str, String)]) -> Vec<u8> {
    let mut out: Vec<u8> = Vec::new();
    let mut central: Vec<u8> = Vec::new();
    for (name, content) in files {
        let data = content.as_bytes();
        let offset = out.len() as u32;
        let crc = crc32(data);
        let mut common: Vec<u8> = Vec::new();
        common.extend_from_slice(&20u16.to_le_bytes());
        common.extend_from_slice(&0u16.to_le_bytes());
        common.extend_from_slice(&0u16.to_le_bytes());
        common.extend_from_slice(&0u16.to_le_bytes());
        common.extend_from_slice(&0x21u16.to_le_bytes());
        common.extend_from_slice(&crc.to_le_bytes());
        common.extend_from_slice(&(data.len() as u32).to_le_bytes());
        common.extend_from_slice(&(data.len() as u32).to_le_bytes());
        common.extend_from_slice(&(name.len() as u16).to_le_bytes());
        common.extend_from_slice(&0u16.to_le_bytes());
        out.extend_from_slice(&0x0403_4b50u32.to_le_bytes());
        out.extend_from_slice(&common);
        out.extend_from_slice(name.as_bytes());
        out.extend_from_slice(data);
        central.extend_from_slice(&0x0201_4b50u32.to_le_bytes());
        central.extend_from_slice(&20u16.to_le_bytes());
        central.extend_from_slice(&common);
        central.extend_from_slice(&0u16.to_le_bytes());
        central.extend_from_slice(&0u16.to_le_bytes());
        central.extend_from_slice(&0u16.to_le_bytes());
        central.extend_from_slice(&0u32.to_le_bytes());
        central.extend_from_slice(&offset.to_le_bytes());
        central.extend_from_slice(name.as_bytes());
    }
    let start = out.len() as u32;
    out.extend_from_slice(&central);
    out.extend_from_slice(&0x0605_4b50u32.to_le_bytes());
    out.extend_from_slice(&0u16.to_le_bytes());
    out.extend_from_slice(&0u16.to_le_bytes());
    out.extend_from_slice(&(files.len() as u16).to_le_bytes());
    out.extend_from_slice(&(files.len() as u16).to_le_bytes());
    out.extend_from_slice(&(central.len() as u32).to_le_bytes());
    out.extend_from_slice(&start.to_le_bytes());
    out.extend_from_slice(&0u16.to_le_bytes());
    out
}

fn escape(text: &str) -> String {
    text.replace('&', "&amp;").replace('<', "&lt;").replace('>', "&gt;")
}

fn sheet_xml(rows: &[Vec<String>]) -> String {
    let mut xml = String::from(
        "<?xml version=\"1.0\" encoding=\"UTF-8\" standalone=\"yes\"?>\n<worksheet xmlns=\"http://schemas.openxmlformats.org/spreadsheetml/2006/main\"><sheetData>",
    );
    for (r, row) in rows.iter().enumerate() {
        xml.push_str(&format!("<row r=\"{}\">", r + 1));
        for (c, cell) in row.iter().enumerate() {
            if !cell.is_empty() {
                let column = (b'A' + c as u8) as char;
                xml.push_str(&format!(
                    "<c r=\"{}{}\" t=\"inlineStr\"><is><t>{}</t></is></c>",
                    column,
                    r + 1,
                    escape(cell)
                ));
            }
        }
        xml.push_str("</row>");
    }
    xml.push_str("</sheetData></worksheet>");
    xml
}

fn workbook_of_sheets(sheets: &[(&str, Vec<Vec<String>>)]) -> Vec<u8> {
    let mut files: Vec<(String, String)> = Vec::new();
    let mut types = String::from(
        "<?xml version=\"1.0\" encoding=\"UTF-8\" standalone=\"yes\"?>\n<Types xmlns=\"http://schemas.openxmlformats.org/package/2006/content-types\"><Default Extension=\"rels\" ContentType=\"application/vnd.openxmlformats-package.relationships+xml\"/><Default Extension=\"xml\" ContentType=\"application/xml\"/><Override PartName=\"/xl/workbook.xml\" ContentType=\"application/vnd.openxmlformats-officedocument.spreadsheetml.sheet.main+xml\"/>",
    );
    let mut book = String::from(
        "<?xml version=\"1.0\" encoding=\"UTF-8\" standalone=\"yes\"?>\n<workbook xmlns=\"http://schemas.openxmlformats.org/spreadsheetml/2006/main\" xmlns:r=\"http://schemas.openxmlformats.org/officeDocument/2006/relationships\"><sheets>",
    );
    let mut rels = String::from(
        "<?xml version=\"1.0\" encoding=\"UTF-8\" standalone=\"yes\"?>\n<Relationships xmlns=\"http://schemas.openxmlformats.org/package/2006/relationships\">",
    );
    let mut parts: Vec<(String, String)> = Vec::new();
    for (i, (name, rows)) in sheets.iter().enumerate() {
        let n = i + 1;
        types.push_str(&format!(
            "<Override PartName=\"/xl/worksheets/sheet{}.xml\" ContentType=\"application/vnd.openxmlformats-officedocument.spreadsheetml.worksheet+xml\"/>",
            n
        ));
        book.push_str(&format!("<sheet name=\"{}\" sheetId=\"{}\" r:id=\"rId{}\"/>", escape(name), n, n));
        rels.push_str(&format!(
            "<Relationship Id=\"rId{}\" Type=\"http://schemas.openxmlformats.org/officeDocument/2006/relationships/worksheet\" Target=\"worksheets/sheet{}.xml\"/>",
            n, n
        ));
        parts.push((format!("xl/worksheets/sheet{}.xml", n), sheet_xml(rows)));
    }
    types.push_str("</Types>");
    book.push_str("</sheets></workbook>");
    rels.push_str("</Relationships>");
    files.push(("[Content_Types].xml".to_string(), types));
    files.push((
        "_rels/.rels".to_string(),
        "<?xml version=\"1.0\" encoding=\"UTF-8\" standalone=\"yes\"?>\n<Relationships xmlns=\"http://schemas.openxmlformats.org/package/2006/relationships\"><Relationship Id=\"rId1\" Type=\"http://schemas.openxmlformats.org/officeDocument/2006/relationships/officeDocument\" Target=\"xl/workbook.xml\"/></Relationships>".to_string(),
    ));
    files.push(("xl/workbook.xml".to_string(), book));
    files.push(("xl/_rels/workbook.xml.rels".to_string(), rels));
    files.extend(parts);
    let borrowed: Vec<(&str, String)> = files.iter().map(|(n, c)| (n.as_str(), c.clone())).collect();
    zip_stored(&borrowed)
}

fn workbook(rows: Vec<Vec<String>>) -> Vec<u8> {
    workbook_of_sheets(&[("Plan1", rows)])
}

fn archival_header() -> Vec<String> {
    strings(&[
        "Cód. de Referência",
        "Título",
        "Data",
        "Nível de descrição",
        "Dimensão e suporte",
        "Nome do produtor",
        "História administrativa/biografia",
        "História arquivística",
        "Procedência",
        "Âmbito e conteúdo",
        "Sistema de arranjo",
        "Condições reprodução",
        "Existência e localização dos originais",
        "Notas sobre conservação",
        "Pontos acesso e indexação de assuntos",
        "Mídias relacionadas",
    ])
}

fn filled_row(width: usize, tag: &str) -> Vec<String> {
    (0..width).map(|c| format!("{}{}", tag, c)).collect()
}

#[test]
fn bytes_that_are_no_workbook_fail_to_decode() {
    assert_eq!(table_of_bytes(b"this is not a spreadsheet"), Err(ReadError::Decode));
    assert_eq!(table_of_bytes(&[]), Err(ReadError::Decode));
    assert!(matches!(museologico(b"PK\x03\x04 broken"), Err(ValidationError::Decode)));
    assert!(matches!(bibliografico(&[0u8; 64]), Err(ValidationError::Decode)));
    assert!(matches!(arquivistico(b""), Err(ValidationError::Decode)));
}

fn first_sheet(bytes: &[u8]) -> FirstSheet {
    let mut book = match open_workbook_auto_from_rs(Cursor::new(bytes.to_vec())) {
        Ok(book) => book,
        Err(_) => return FirstSheet::NoWorkbook,
    };
    let name = match first_sheet_name(&book) {
        Some(name) => name,
        None => return FirstSheet::NoSheet,
    };
    match book.worksheet_range(&name) {
        Ok(range) => FirstSheet::Cells(range),
        Err(_) => FirstSheet::Unreadable,
    }
}

fn table_of_bytes(bytes: &[u8]) -> Result<Vec<Vec<String>>, ReadError> {
    read_table(&first_sheet(bytes))
}

fn museologico(bytes: &[u8]) -> Result<ValidationReport, ValidationError> {
    validate_museologico(&first_sheet(bytes))
}

fn bibliografico(bytes: &[u8]) -> Result<ValidationReport, ValidationError> {
    validate_bibliografico(&first_sheet(bytes))
}

fn arquivistico(bytes: &[u8]) -> Result<ValidationReport, ValidationError> {
    validate_arquivistico(&first_sheet(bytes))
}

fn records_of_bytes(bytes: &[u8], schema: &Schema) -> Result<Vec<Record>, ValidationError> {
    read_excel_file(&first_sheet(bytes), schema)
}

fn report_of_bytes(bytes: &[u8], schema: &Schema) -> Result<ValidationReport, ValidationError> {
    validate_from_schema(&first_sheet(bytes), schema)
}

#[test]
fn outcomes_of_a_reading_without_cells() {
    assert_eq!(read_table(&FirstSheet::NoWorkbook), Err(ReadError::Decode));
    assert_eq!(read_table(&FirstSheet::NoSheet), Err(ReadError::EmptySheet));
    assert_eq!(read_table(&FirstSheet::Unreadable), Err(ReadError::Decode));
    let schema = schema_for(RecordKind::Archival);
    assert!(matches!(read_excel_file(&FirstSheet::NoWorkbook, &schema), Err(ValidationError::Decode)));
    assert!(matches!(read_excel_file(&FirstSheet::NoSheet, &schema), Err(ValidationError::EmptySheet)));
    assert!(matches!(validate_from_schema(&FirstSheet::Unreadable, &schema), Err(ValidationError::Decode)));
    assert!(matches!(validate_museologico(&FirstSheet::NoSheet), Err(ValidationError::EmptySheet)));
    assert!(matches!(validate_bibliografico(&FirstSheet::Unreadable), Err(ValidationError::Decode)));
    assert!(matches!(validate_arquivistico(&FirstSheet::NoWorkbook), Err(ValidationError::Decode)));
    assert!(matches!(
        validate(&FirstSheet::NoSheet, RecordKind::Archival),
        Err(ValidationError::EmptySheet)
    ));
}

#[test]
fn cells_of_every_kind_come_out_as_text() {
    let range = Range::from_sparse(vec![
        Cell::new((0, 0), Data::String("A B".to_string())),
        Cell::new((0, 1), Data::String("C-D".to_string())),
        Cell::new((0, 2), Data::String("e".to_string())),
        Cell::new((1, 0), Data::Int(42)),
        Cell::new((1, 1), Data::Float(1.5)),
        Cell::new((1, 2), Data::Bool(true)),
        Cell::new((2, 1), Data::String("only".to_string())),
    ]);
    let sheet = FirstSheet::Cells(range);
    let table = read_table(&sheet).unwrap();
    assert_eq!(
        table,
        vec![strings(&["A B", "C-D", "e"]), strings(&["42", "1.5", "true"]), strings(&["", "only", ""])]
    );
    let schema = Schema {
        fields: strings(&["ab", "cd", "e"]),
        required: strings(&["ab"]),
        policy: MatchPolicy::ExactOrder,
    };
    let report = validate_from_schema(&sheet, &schema).unwrap();
    assert_eq!(report.data.len(), 2);
    assert_eq!(report.data[0].get("cd"), Some("1.5".to_string()));
    assert_eq!(report.errors, vec![1]);
}

#[test]
fn range_without_cells_is_an_empty_sheet() {
    let sheet = FirstSheet::Cells(Range::empty());
    assert_eq!(read_table(&sheet), Err(ReadError::EmptySheet));
    assert!(matches!(validate_arquivistico(&sheet), Err(ValidationError::EmptySheet)));
}

#[test]
fn buffer_with_a_compound_signature_goes_to_the_reader() {
    let signature = [0xD0u8, 0xCF, 0x11, 0xE0, 0xA1, 0xB1, 0x1A, 0xE1];
    assert!(matches!(first_sheet(&signature), FirstSheet::NoWorkbook));
    assert_eq!(table_of_bytes(&signature), Err(ReadError::Decode));
}

#[test]
fn the_first_sheet_is_named_by_position() {
    let first = vec![strings(&["a"])];
    let second = vec![strings(&["x"])];
    let bytes = workbook_of_sheets(&[("Zeta", first), ("Alfa", second)]);
    let book = open_workbook_auto_from_rs(Cursor::new(bytes)).unwrap();
    assert_eq!(book.sheet_names(), strings(&["Zeta", "Alfa"]));
    assert_eq!(first_sheet_name(&book), Some("Zeta".to_string()));
}

#[test]
fn decision_on_the_rows_that_were_read() {
    assert_eq!(table_from_rows(None), Err(ReadError::Decode));
    assert_eq!(table_from_rows(Some(Vec::new())), Err(ReadError::EmptySheet));
    let rows = vec![strings(&["a"])];
    assert_eq!(table_from_rows(Some(rows.clone())), Ok(rows));
}

#[test]
fn reads_the_rows_of_the_sheet_in_order() {
    let rows = vec![strings(&["A B", "C-D"]), strings(&["1", "2"]), strings(&["3", "4"])];
    let table = table_of_bytes(&workbook(rows.clone())).unwrap();
    assert_eq!(table, rows);
}

#[test]
fn reads_the_first_sheet_by_position() {
    let first = vec![strings(&["a", "b"]), strings(&["1", "2"])];
    let second = vec![strings(&["x"]), strings(&["9"])];
    let bytes = workbook_of_sheets(&[("Zeta", first.clone()), ("Alfa", second)]);
    assert_eq!(table_of_bytes(&bytes).unwrap(), first);
}

#[test]
fn empty_cells_come_out_as_empty_text() {
    let rows = vec![strings(&["a", "b", "c"]), strings(&["", "y", "z"]), strings(&["x", "", "z"])];
    let table = table_of_bytes(&workbook(rows.clone())).unwrap();
    assert_eq!(table, rows);
}

#[test]
fn sheet_without_rows_is_empty() {
    assert_eq!(table_of_bytes(&workbook(Vec::new())), Err(ReadError::EmptySheet));
    assert!(matches!(arquivistico(&workbook(Vec::new())), Err(ValidationError::EmptySheet)));
}

#[test]
fn archival_workbook_with_complete_rows_is_valid() {
    let rows = vec![archival_header(), filled_row(16, "a"), filled_row(16, "b")];
    let report = arquivistico(&workbook(rows)).unwrap();
    assert_eq!(report.data.len(), 2);
    assert!(report.errors.is_empty());
    assert_eq!(report.data[0].get("coddereferencia"), Some("a0".to_string()));
    assert_eq!(report.data[1].get("midiasrelacionadas"), Some("b15".to_string()));
    assert_eq!(report.data[0].fields, schema_for(RecordKind::Archival).fields);
}

#[test]
fn archival_row_without_title_is_reported() {
    let mut second = filled_row(16, "b");
    second[1] = String::new();
    let mut third = filled_row(16, "c");
    third[8] = String::new();
    let rows = vec![archival_header(), filled_row(16, "a"), second, third];
    let report = arquivistico(&workbook(rows)).unwrap();
    assert_eq!(report.data.len(), 3);
    assert_eq!(report.errors, vec![1]);
    assert_eq!(report.data[1].get("titulo"), Some(String::new()));
    assert_eq!(report.data[2].get("procedencia"), Some(String::new()));
}

#[test]
fn archival_header_alone_is_no_data() {
    let rows = vec![archival_header()];
    assert!(matches!(arquivistico(&workbook(rows)), Err(ValidationError::NoData)));
}

#[test]
fn archival_header_with_a_misspelled_column_is_a_mismatch() {
    let mut header = archival_header();
    header[1] = "Titulo principal".to_string();
    let rows = vec![header, filled_row(16, "a")];
    match arquivistico(&workbook(rows)) {
        Err(ValidationError::SchemaMismatch { expected, actual }) => {
            assert_eq!(expected, schema_for(RecordKind::Archival).fields);
            assert_eq!(actual[1], "tituloprincipal");
            assert_eq!(actual.len(), 16);
        }
        other => panic!("unexpected result: {:?}", other),
    }
}

#[test]
fn workbook_of_another_kind_is_a_mismatch() {
    let rows = vec![archival_header(), filled_row(16, "a")];
    let bytes = workbook(rows);
    assert!(matches!(museologico(&bytes), Err(ValidationError::SchemaMismatch { .. })));
    assert!(matches!(bibliografico(&bytes), Err(ValidationError::SchemaMismatch { .. })));
    assert!(matches!(
        validate(&first_sheet(&bytes), RecordKind::Museological),
        Err(ValidationError::SchemaMismatch { .. })
    ));
}

#[test]
fn museological_workbook_is_validated() {
    let schema = schema_for(RecordKind::Museological);
    let mut second = filled_row(22, "b");
    second[17] = String::new();
    let rows = vec![schema.fields.clone(), filled_row(22, "a"), second];
    let report = museologico(&workbook(rows)).unwrap();
    assert_eq!(report.data.len(), 2);
    assert_eq!(report.errors, vec![1]);
    assert_eq!(report.data[0].get("diametro"), Some("a12".to_string()));
}

#[test]
fn bibliographic_workbook_is_validated() {
    let schema = schema_for(RecordKind::Bibliographic);
    let mut first = filled_row(19, "a");
    first[0] = String::new();
    let mut second = filled_row(19, "b");
    second[15] = String::new();
    let rows = vec![schema.fields.clone(), first, second];
    let report = bibliografico(&workbook(rows)).unwrap();
    assert_eq!(report.data.len(), 2);
    assert_eq!(report.errors, vec![0]);
}

#[test]
fn reading_with_a_schema_of_ones_own() {
    let schema = Schema {
        fields: strings(&["ab", "cd"]),
        required: strings(&["cd"]),
        policy: MatchPolicy::ExactOrder,
    };
    let rows = vec![strings(&["A B", "C-D"]), strings(&["1", "2"]), strings(&["3", ""])];
    let bytes = workbook(rows);
    let records = records_of_bytes(&bytes, &schema).unwrap();
    assert_eq!(records.len(), 2);
    assert_eq!(records[0].fields, strings(&["ab", "cd"]));
    assert_eq!(records[1].values, strings(&["3", ""]));
    let report = report_of_bytes(&bytes, &schema).unwrap();
    assert_eq!(report.errors, vec![1]);
    assert!(matches!(records_of_bytes(b"no workbook", &schema), Err(ValidationError::Decode)));
}
