use bias_core::cio::{
    FileError, LoadEvent, LoadRequest, LoadStep, TypeDBConfig, TypeError, TypeInfoDB,
};

struct Files {
    cache: Option<Result<(), &'static str>>,
    exists: bool,
    imported: Result<(), &'static str>,
}

fn given(result: Result<(), &'static str>) -> Result<TypeInfoDB, TypeError> {
    match result {
        Ok(()) => Ok(TypeInfoDB::default()),
        Err(message) => Err(TypeError::Deserialisation(message.to_string())),
    }
}

fn load(request: LoadRequest, files: &Files) -> (usize, Result<TypeInfoDB, TypeError>) {
    let mut step = LoadStep::first(request);
    let mut steps = 1;
    loop {
        let event = match &step {
            LoadStep::TestCache => LoadEvent::Exists(files.cache.is_some()),
            LoadStep::ReadCache => LoadEvent::Loaded(given(files.cache.unwrap())),
            LoadStep::TestFile(_) => LoadEvent::Exists(files.exists),
            LoadStep::Import => LoadEvent::Loaded(given(files.imported)),
            LoadStep::Done(_) => {
                let LoadStep::Done(result) = step else { unreachable!() };
                return (steps, result);
            }
        };
        step = step.next(request, event);
        steps += 1;
    }
}

fn request(header: bool, can_import: bool, is_cache: bool) -> LoadRequest {
    TypeDBConfig::new(header).load_request(can_import, is_cache)
}

#[test]
fn headers_are_imported_or_unsupported() {
    let files = Files { cache: Some(Ok(())), exists: true, imported: Ok(()) };
    assert!(load(request(true, true, false), &files).1.is_ok());
    assert!(matches!(load(request(true, false, false), &files).1, Err(TypeError::Unsupported)));
}

#[test]
fn a_readable_cache_is_taken() {
    let files = Files { cache: Some(Ok(())), exists: false, imported: Err("import") };
    for can_import in [false, true] {
        for is_cache in [false, true] {
            let (steps, result) = load(request(false, can_import, is_cache), &files);
            assert!(result.is_ok());
            assert_eq!(steps, 3);
        }
    }
}

#[test]
fn an_importer_stands_in_for_the_cache() {
    let files = Files { cache: Some(Err("cache")), exists: false, imported: Ok(()) };
    assert!(load(request(false, true, false), &files).1.is_ok());
    let files = Files { cache: None, exists: true, imported: Err("import") };
    match load(request(false, true, false), &files).1 {
        Err(TypeError::Deserialisation(message)) => assert_eq!(message, "import"),
        _ => panic!(),
    }
}

#[test]
fn a_header_without_importer_is_unsupported() {
    for cache in [None, Some(Err("cache"))] {
        let files = Files { cache, exists: true, imported: Ok(()) };
        let (steps, result) = load(request(false, false, false), &files);
        assert!(matches!(result, Err(TypeError::Unsupported)));
        assert!(steps <= 4);
    }
}

#[test]
fn the_error_of_the_cache_is_kept() {
    let files = Files { cache: Some(Err("cache")), exists: false, imported: Ok(()) };
    for is_cache in [false, true] {
        match load(request(false, false, is_cache), &files).1 {
            Err(TypeError::Deserialisation(message)) => assert_eq!(message, "cache"),
            _ => panic!(),
        }
    }
}

#[test]
fn a_missing_file_is_not_found() {
    let files = Files { cache: None, exists: false, imported: Ok(()) };
    for (can_import, is_cache) in [(false, false), (false, true), (true, true)] {
        match load(request(false, can_import, is_cache), &files).1 {
            Err(TypeError::IO(FileError::NotFound(message))) => {
                assert_eq!(message, "header (or cached variant) not found")
            }
            _ => panic!(),
        }
    }
}
