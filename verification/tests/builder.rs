use bias_core::lifter::builder::{
    cache_name, supported, translator_cache_plan, BuildEvent, BuildStep, CacheEntry,
    TranslatorSource,
};
use bias_core::lifter::disassembly::mapped_bytes;
use bias_core::lifter::{LifterBuilderError, LifterError, LoadedTranslators};
use std::sync::Arc;

struct World {
    cache: Option<Result<(usize, &'static str), &'static str>>,
    built: Result<&'static str, &'static str>,
}

struct Outcome {
    result: Result<(TranslatorSource, Arc<String>), LifterBuilderError>,
    stored: bool,
    context: bool,
    steps: usize,
}

fn run(loaded: &mut LoadedTranslators<String>, id: &str, world: World) -> Outcome {
    let mut step: BuildStep<String> = BuildStep::FindLoaded;
    let mut stored = false;
    let mut context = false;
    let mut steps = 0;
    loop {
        let event = match &step {
            BuildStep::FindLoaded => BuildEvent::Loaded(loaded.find(id)),
            BuildStep::OpenCache => BuildEvent::Opened(world.cache.is_some()),
            BuildStep::ReadCache => BuildEvent::Read(match world.cache.unwrap() {
                Ok((conventions, text)) => Ok((conventions, Arc::new(text.to_string()))),
                Err(e) => Err(LifterBuilderError::Deserialisation(e.to_string())),
            }),
            BuildStep::Build => BuildEvent::Built(match world.built {
                Ok(text) => Ok(Arc::new(text.to_string())),
                Err(e) => Err(LifterBuilderError::Backend(e.to_string())),
            }),
            BuildStep::ApplyContext(text) => {
                context = true;
                BuildEvent::Applied(Arc::new(format!("{} in context", text)))
            }
            BuildStep::Store(_, translator) => {
                stored = true;
                loaded.keep(id, translator.clone());
                BuildEvent::Stored
            }
            BuildStep::Done(_) => {
                let BuildStep::Done(result) = step else { unreachable!() };
                return Outcome { result, stored, context, steps };
            }
        };
        step = step.next(event);
        steps += 1;
    }
}

fn found(outcome: Outcome) -> (TranslatorSource, String) {
    let (source, translator) = outcome.result.unwrap();
    (source, (*translator).clone())
}

#[test]
fn a_loaded_translator_is_used() {
    let mut loaded = LoadedTranslators::new();
    loaded.keep("arm", Arc::new("kept".to_string()));
    let outcome = run(&mut loaded, "arm", World { cache: Some(Err("bad")), built: Err("bad") });
    assert_eq!((outcome.stored, outcome.context, outcome.steps), (false, false, 1));
    assert_eq!(found(outcome), (TranslatorSource::Loaded, "kept".to_string()));
}

#[test]
fn a_cached_translator_gets_its_context() {
    let mut loaded = LoadedTranslators::new();
    let world = World { cache: Some(Ok((2, "cached"))), built: Err("bad") };
    let outcome = run(&mut loaded, "arm", world);
    assert_eq!((outcome.stored, outcome.context, outcome.steps), (true, true, 5));
    assert_eq!(found(outcome), (TranslatorSource::Cached, "cached in context".to_string()));
    assert_eq!(*loaded.find("arm").unwrap(), "cached in context");
}

#[test]
fn a_translator_is_built_without_a_usable_cache() {
    for cache in [None, Some(Ok((0, "empty")))] {
        let mut loaded = LoadedTranslators::new();
        let outcome = run(&mut loaded, "arm", World { cache, built: Ok("built") });
        assert!(outcome.stored && !outcome.context && outcome.steps <= 5);
        assert_eq!(found(outcome), (TranslatorSource::Built, "built".to_string()));
    }
}

#[test]
fn a_translator_is_got_once() {
    let mut loaded = LoadedTranslators::new();
    let first = run(&mut loaded, "arm", World { cache: None, built: Ok("first") });
    let first = first.result.unwrap().1;
    let world = World { cache: Some(Ok((1, "later"))), built: Ok("later") };
    let second = run(&mut loaded, "arm", world);
    assert!(!second.stored && second.steps == 1);
    assert!(Arc::ptr_eq(&first, &second.result.unwrap().1));
    let other = run(&mut loaded, "mips", World { cache: None, built: Ok("other") });
    assert_eq!(found(other), (TranslatorSource::Built, "other".to_string()));
    assert!(Arc::ptr_eq(&first, &loaded.find("arm").unwrap()));
}

#[test]
fn kept_translators_are_found_by_language() {
    let mut loaded: LoadedTranslators<u32> = LoadedTranslators::new();
    assert!(loaded.find("arm").is_none());
    loaded.keep("arm", Arc::new(1));
    loaded.keep("mips", Arc::new(2));
    loaded.keep("arm", Arc::new(3));
    assert_eq!(loaded.find("arm"), Some(Arc::new(3)));
    assert_eq!(loaded.find("mips"), Some(Arc::new(2)));
    assert!(loaded.find("ar").is_none());
}

#[test]
fn a_cache_that_cannot_be_read_is_an_error() {
    let mut loaded = LoadedTranslators::new();
    let world = World { cache: Some(Err("torn")), built: Ok("built") };
    let outcome = run(&mut loaded, "arm", world);
    match outcome.result {
        Err(LifterBuilderError::Deserialisation(message)) => assert_eq!(message, "torn"),
        _ => panic!(),
    }
    assert!(!outcome.stored && loaded.find("arm").is_none());
}

#[test]
fn a_failed_build_is_an_error() {
    for cache in [None, Some(Ok((0, "empty")))] {
        let mut loaded = LoadedTranslators::new();
        let outcome = run(&mut loaded, "arm", World { cache, built: Err("no sla") });
        match outcome.result {
            Err(LifterBuilderError::Backend(message)) => assert_eq!(message, "no sla"),
            _ => panic!(),
        }
        assert!(!outcome.stored && loaded.find("arm").is_none());
    }
}

#[test]
fn an_unknown_architecture_is_unsupported() {
    assert_eq!(supported(Some(5)).unwrap(), 5);
    assert!(matches!(supported::<u32>(None), Err(LifterBuilderError::UnsupportedArch)));
}

#[test]
fn an_unmapped_address_is_an_error() {
    let bytes: [u8; 2] = [0x90, 0xc3];
    assert_eq!(mapped_bytes(Some(&bytes)).unwrap(), bytes);
    let Err(LifterError::Disassembly(message)) = mapped_bytes(None) else { panic!() };
    assert_eq!(message, "unmapped address");
}

#[test]
fn cache_names_have_no_colons() {
    assert_eq!(cache_name("x86:LE:64:default"), "x86-LE-64-default");
    assert_eq!(cache_name("plain"), "plain");
    assert_eq!(cache_name("::"), "--");
}

fn entry(compiler_specs: usize, path: &str) -> CacheEntry {
    CacheEntry { compiler_specs, path: path.to_string() }
}

#[test]
fn each_path_is_cached_once() {
    let entries = vec![
        entry(0, "a.bin"),
        entry(2, "b.bin"),
        entry(1, "a.bin"),
        entry(1, "b.bin"),
        entry(0, "c.bin"),
        entry(3, "a.bin"),
        entry(1, "d.bin"),
    ];
    assert_eq!(translator_cache_plan(&entries), vec![1, 2, 6]);
    assert!(translator_cache_plan(&vec![]).is_empty());
}
