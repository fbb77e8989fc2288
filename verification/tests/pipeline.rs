use voicefetch::errors::PipelineError;
use voicefetch::extract::extract_module_links;
use voicefetch::extract::extract_sections;
use voicefetch::extract::section_descriptor;
use voicefetch::progress::DownloadProgress;
use voicefetch::tasks::make_task;

// The pipeline driven over canned documents in place of the network: load
// the index, follow its one module link, walk the module's sections in
// order, download each well-formed widget, and abort on the first fault.

const INDEX_PAGE: &str = "<html><body><div class=\"rich_media_wrp\">\
    <div class=\"rich_media_content\">\
    <p><a href=\"https://example.invalid/module-one\">Module One</a></p>\
    </div></div></body></html>";

const MODULE_PAGE: &str = "<html><body><div class=\"rich_media_content\">\
    <section><mpvoice name=\"Lesson\u{a0}One\" voice_encode_fileid=\"GOOD1\"></mpvoice></section>\
    <section><mpvoice name=\"Lesson\u{a0}Two\"></mpvoice></section>\
    </div></body></html>";

fn fetch(url: &str) -> Option<&'static str> {
    match url {
        "https://example.invalid/index" => Some(INDEX_PAGE),
        "https://example.invalid/module-one" => Some(MODULE_PAGE),
        _ => None,
    }
}

fn simulated_download(chunks: &[&[u8]]) -> Result<(Vec<u8>, u64), PipelineError> {
    let total: u64 = chunks.iter().map(|c| c.len() as u64).sum();
    let mut progress = DownloadProgress::begin(Some(total))?;
    let mut file: Vec<u8> = Vec::new();
    let mut pos: u64 = 0;
    for chunk in chunks {
        file.extend_from_slice(chunk);
        pos = progress.advance(chunk);
    }
    assert!(progress.is_complete());
    Ok((file, pos))
}

#[test]
fn end_to_end_downloads_first_widget_then_aborts() {
    let index_body = fetch("https://example.invalid/index").unwrap();
    let links = extract_module_links(index_body).unwrap();
    assert_eq!(links, vec!["https://example.invalid/module-one".to_string()]);

    let mut downloaded: Vec<(String, Vec<u8>)> = Vec::new();
    let mut fatal: Option<PipelineError> = None;

    'modules: for link in &links {
        let module_body = fetch(link).unwrap();
        let sections = match extract_sections(module_body) {
            Ok(sections) => sections,
            Err(e) => {
                fatal = Some(e);
                break 'modules;
            }
        };
        for section in &sections {
            match section_descriptor(section) {
                Ok(None) => {}
                Ok(Some(descriptor)) => {
                    let task = make_task(&descriptor);
                    let body: [&[u8]; 3] = [&[1; 100], &[2; 100], &[3; 100]];
                    let (bytes, pos) = simulated_download(&body).unwrap();
                    assert_eq!(pos, 300);
                    assert_eq!(bytes.len(), 300);
                    downloaded.push((task.destination_path, bytes));
                }
                Err(e) => {
                    fatal = Some(e);
                    break 'modules;
                }
            }
        }
    }

    // The well-formed first section was downloaded in full...
    assert_eq!(downloaded.len(), 1);
    assert_eq!(downloaded[0].0, "./download/Lesson_One.mp3");
    // ...and the second, which lacks `voice_encode_fileid`, aborted the run.
    assert_eq!(fatal, Some(PipelineError::AttributeMissing));
}

#[test]
fn rerun_of_one_download_yields_identical_bytes() {
    let body: [&[u8]; 2] = [&[5; 40], &[6; 24]];
    let (first, first_pos) = simulated_download(&body).unwrap();
    let (second, second_pos) = simulated_download(&body).unwrap();
    assert_eq!(first, second);
    assert_eq!(first_pos, second_pos);
    assert_eq!(first.len(), 64);
}
