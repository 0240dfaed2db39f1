use cube::resource::{same_name, Resource};
use cube::shader::key::pair_key;
use cube::errors::Error;
use cube::shader::count::Counted;
use cube::shader::{missing_shader, LoadError, Manager};

#[derive(Debug, Clone, PartialEq)]
struct Program(String);

impl Resource for Program {}

fn link(vertex: &String, fragment: &String) -> Result<Program, String> {
    Ok(Program(format!("{}+{}", vertex, fragment)))
}

#[test]
fn miss_then_hit() {
    let mut cache: Manager<&str, Program> = Manager::new();
    assert_eq!(cache.store("v", "src1".to_string()), None);
    assert_eq!(cache.store("f", "src2".to_string()), None);
    let mut calls = 0;
    let first = cache
        .load("v", "f", |v: &String, f: &String| {
            calls += 1;
            assert_eq!(v, "src1");
            assert_eq!(f, "src2");
            link(v, f)
        })
        .map(|p| p.clone());
    assert_eq!(first, Ok(Program("src1+src2".to_string())));
    assert_eq!(calls, 1);
    let mut calls_again = 0;
    let second = cache
        .load("v", "f", |_: &String, _: &String| {
            calls_again += 1;
            Ok::<Program, String>(Program("other".to_string()))
        })
        .map(|p| p.clone());
    assert_eq!(second, Ok(Program("src1+src2".to_string())));
    assert_eq!(calls_again, 0);
}

#[test]
fn missing_source_surfaces_correctly() {
    let mut cache: Manager<&str, Program> = Manager::new();
    let mut calls = 0;
    let loaded = cache
        .load("x", "y", |v: &String, f: &String| {
            calls += 1;
            link(v, f)
        })
        .map(|p| p.clone());
    assert_eq!(loaded, Err(LoadError::MissingSource("x")));
    assert_eq!(calls, 0);
}

#[test]
fn missing_second_source_is_named() {
    let mut cache: Manager<&str, Program> = Manager::new();
    cache.store("x", "one".to_string());
    let mut calls = 0;
    let loaded = cache
        .load("x", "y", |v: &String, f: &String| {
            calls += 1;
            link(v, f)
        })
        .map(|p| p.clone());
    assert_eq!(loaded, Err(LoadError::MissingSource("y")));
    assert_eq!(calls, 0);
}

#[test]
fn first_missing_source_is_reported_before_second() {
    let mut cache: Manager<&str, Program> = Manager::new();
    cache.store("y", "two".to_string());
    let loaded = cache.load("x", "y", link).map(|p| p.clone());
    assert_eq!(loaded, Err(LoadError::MissingSource("x")));
    let both = cache.load("p", "q", link).map(|p| p.clone());
    assert_eq!(both, Err(LoadError::MissingSource("p")));
}

#[test]
fn cache_is_usable_after_missing_source() {
    let mut cache: Manager<&str, Program> = Manager::new();
    cache.store("v", "a".to_string());
    assert_eq!(
        cache.load("v", "f", link).map(|p| p.clone()),
        Err(LoadError::MissingSource("f"))
    );
    cache.store("f", "b".to_string());
    assert_eq!(
        cache.load("v", "f", link).map(|p| p.clone()),
        Ok(Program("a+b".to_string()))
    );
}

#[test]
fn build_failure_is_not_memoized() {
    let mut cache: Manager<&str, Program> = Manager::new();
    cache.store("v", "src1".to_string());
    cache.store("f", "src2".to_string());
    let failed = cache
        .load("v", "f", |_: &String, _: &String| {
            Err::<Program, String>("rejected".to_string())
        })
        .map(|p| p.clone());
    assert_eq!(failed, Err(LoadError::Build("rejected".to_string())));
    assert_eq!(cache.get(&"v", &"f"), None);
    let mut calls = 0;
    let retried = cache
        .load("v", "f", |v: &String, f: &String| {
            calls += 1;
            link(v, f)
        })
        .map(|p| p.clone());
    assert_eq!(retried, Ok(Program("src1+src2".to_string())));
    assert_eq!(calls, 1);
}

#[test]
fn replacement_does_not_retroactively_invalidate() {
    let mut cache: Manager<&str, Program> = Manager::new();
    cache.store("v", "src1".to_string());
    cache.store("f", "src2".to_string());
    let built = cache.load("v", "f", link).map(|p| p.clone());
    assert_eq!(built, Ok(Program("src1+src2".to_string())));
    assert_eq!(
        cache.store("v", "src1-modified".to_string()),
        Some("src1".to_string())
    );
    let mut calls = 0;
    let again = cache
        .load("v", "f", |v: &String, f: &String| {
            calls += 1;
            link(v, f)
        })
        .map(|p| p.clone());
    assert_eq!(again, Ok(Program("src1+src2".to_string())));
    assert_eq!(calls, 0);
}

#[test]
fn at_most_once_build() {
    let mut cache: Manager<&str, Program> = Manager::new();
    cache.store("a", "one".to_string());
    cache.store("b", "two".to_string());
    let mut calls = 0;
    for _ in 0..5 {
        let loaded = cache
            .load("a", "b", |v: &String, f: &String| {
                calls += 1;
                link(v, f)
            })
            .map(|p| p.clone());
        assert_eq!(loaded, Ok(Program("one+two".to_string())));
    }
    assert_eq!(calls, 1);
}

#[test]
fn order_sensitivity() {
    let mut cache: Manager<&str, Program> = Manager::new();
    cache.store("a", "one".to_string());
    cache.store("b", "two".to_string());
    let mut calls = 0;
    let forward = cache
        .load("a", "b", |v: &String, f: &String| {
            calls += 1;
            link(v, f)
        })
        .map(|p| p.clone());
    let backward = cache
        .load("b", "a", |v: &String, f: &String| {
            calls += 1;
            link(v, f)
        })
        .map(|p| p.clone());
    assert_eq!(calls, 2);
    assert_eq!(forward, Ok(Program("one+two".to_string())));
    assert_eq!(backward, Ok(Program("two+one".to_string())));
    assert_eq!(cache.get(&"a", &"b"), Some(&Program("one+two".to_string())));
    assert_eq!(cache.get(&"b", &"a"), Some(&Program("two+one".to_string())));
    assert_ne!(pair_key(b"a", b"b"), pair_key(b"b", b"a"));
}

#[test]
fn same_identifier_twice_is_a_pair_of_its_own() {
    let mut cache: Manager<&str, Program> = Manager::new();
    cache.store("a", "one".to_string());
    assert_eq!(
        cache.load("a", "a", link).map(|p| p.clone()),
        Ok(Program("one+one".to_string()))
    );
}

#[test]
fn store_hands_back_what_it_replaces() {
    let mut cache: Manager<&str, Program> = Manager::new();
    assert_eq!(cache.store("v", "first".to_string()), None);
    assert_eq!(cache.store("w", "other".to_string()), None);
    assert_eq!(cache.store("v", "second".to_string()), Some("first".to_string()));
    assert_eq!(cache.store("v", "third".to_string()), Some("second".to_string()));
    assert_eq!(cache.store("w", "last".to_string()), Some("other".to_string()));
    assert_eq!(
        cache.load("v", "w", link).map(|p| p.clone()),
        Ok(Program("third+last".to_string()))
    );
}

#[test]
fn hit_needs_no_sources() {
    let mut cache: Manager<&str, Program> = Manager::new();
    let kept = cache
        .record(&"v", &"f", Ok::<Program, String>(Program("ready".to_string())))
        .map(|p| p.clone());
    assert_eq!(kept, Ok(Program("ready".to_string())));
    let mut calls = 0;
    let loaded = cache
        .load("v", "f", |v: &String, f: &String| {
            calls += 1;
            link(v, f)
        })
        .map(|p| p.clone());
    assert_eq!(loaded, Ok(Program("ready".to_string())));
    assert_eq!(calls, 0);
}

#[test]
fn record_keeps_the_first_object() {
    let mut cache: Manager<&str, Program> = Manager::new();
    let first = cache
        .record(&"v", &"f", Ok::<Program, String>(Program("one".to_string())))
        .map(|p| p.clone());
    assert_eq!(first, Ok(Program("one".to_string())));
    let second = cache
        .record(&"v", &"f", Ok::<Program, String>(Program("two".to_string())))
        .map(|p| p.clone());
    assert_eq!(second, Ok(Program("one".to_string())));
    assert_eq!(cache.get(&"v", &"f"), Some(&Program("one".to_string())));
}

#[test]
fn record_of_a_failure_leaves_nothing() {
    let mut cache: Manager<&str, Program> = Manager::new();
    let failed = cache
        .record(&"v", &"f", Err::<Program, String>("no".to_string()))
        .map(|p| p.clone());
    assert_eq!(failed, Err("no".to_string()));
    assert_eq!(cache.get(&"v", &"f"), None);
}

#[test]
fn compile_then_get_two_objects_at_once() {
    let mut cache: Manager<&str, Program> = Manager::new();
    cache.store("cube.vert", "cv".to_string());
    cache.store("cube.frag", "cf".to_string());
    cache.store("light.vert", "lv".to_string());
    cache.store("light.frag", "lf".to_string());
    assert_eq!(cache.compile("cube.vert", "cube.frag", link), Ok(()));
    assert_eq!(cache.compile("light.vert", "light.frag", link), Ok(()));
    let cube = cache.get(&"cube.vert", &"cube.frag");
    let light = cache.get(&"light.vert", &"light.frag");
    assert_eq!(cube, Some(&Program("cv+cf".to_string())));
    assert_eq!(light, Some(&Program("lv+lf".to_string())));
    assert_eq!(cache.get(&"cube.vert", &"light.frag"), None);
}

#[test]
fn compile_reports_as_load_does() {
    let mut cache: Manager<&str, Program> = Manager::new();
    assert_eq!(
        cache.compile("v", "f", link),
        Err(LoadError::MissingSource("v"))
    );
    cache.store("v", "a".to_string());
    cache.store("f", "b".to_string());
    assert_eq!(
        cache.compile("v", "f", |_: &String, _: &String| Err::<Program, u8>(3)),
        Err(LoadError::Build(3))
    );
    assert_eq!(cache.get(&"v", &"f"), None);
    let mut calls = 0;
    assert_eq!(
        cache.compile("v", "f", |v: &String, f: &String| {
            calls += 1;
            link(v, f)
        }),
        Ok(())
    );
    assert_eq!(
        cache.compile("v", "f", |v: &String, f: &String| {
            calls += 1;
            link(v, f)
        }),
        Ok(())
    );
    assert_eq!(calls, 1);
}

#[test]
fn owned_strings_are_identifiers_too() {
    let mut cache: Manager<String, Program> = Manager::new();
    cache.store("v".to_string(), "a".to_string());
    cache.store("f".to_string(), "b".to_string());
    assert_eq!(
        cache.store("v".to_string(), "c".to_string()),
        Some("a".to_string())
    );
    assert_eq!(
        cache
            .load("v".to_string(), "g".to_string(), link)
            .map(|p| p.clone()),
        Err(LoadError::MissingSource("g".to_string()))
    );
    assert_eq!(
        cache
            .load("v".to_string(), "f".to_string(), link)
            .map(|p| p.clone()),
        Ok(Program("c+b".to_string()))
    );
}

#[test]
fn pair_key_is_a_function_of_the_ordered_pair() {
    assert_eq!(pair_key(b"cube.vert", b"cube.frag"), pair_key(b"cube.vert", b"cube.frag"));
    assert_ne!(pair_key(b"cube.vert", b"cube.frag"), pair_key(b"cube.frag", b"cube.vert"));
    assert_ne!(pair_key(b"ab", b"c"), pair_key(b"a", b"bc"));
    assert_ne!(pair_key(b"", b"a"), pair_key(b"a", b""));
}

#[test]
fn same_name_compares_byte_for_byte() {
    assert!(same_name(b"", b""));
    assert!(same_name(b"cube.vert", b"cube.vert"));
    assert!(!same_name(b"cube.vert", b"cube.frag"));
    assert!(!same_name(b"cube", b"cube.vert"));
    assert!(!same_name(b"cube.vert", b"cube"));
}

#[test]
fn load_error_says_its_kind() {
    let missing: LoadError<&str, String> = LoadError::MissingSource("v");
    let failed: LoadError<&str, String> = LoadError::Build("rejected".to_string());
    assert_eq!(missing.description(), "missing shader");
    assert_eq!(failed.description(), "program creation error");
}

#[test]
fn counted_build_runs_once_over_many_loads() {
    let mut cache: Manager<&str, Program> = Manager::new();
    cache.store("a", "one".to_string());
    cache.store("b", "two".to_string());
    let mut build = Counted::new(link);
    assert_eq!(build.runs(), 0);
    for _ in 0..7 {
        let loaded = cache.load_counted("a", "b", &mut build).map(|p| p.clone());
        assert_eq!(loaded, Ok(Program("one+two".to_string())));
        assert_eq!(build.runs(), 1);
    }
    let other = cache.load_counted("b", "a", &mut build).map(|p| p.clone());
    assert_eq!(other, Ok(Program("two+one".to_string())));
    assert_eq!(build.runs(), 2);
}

#[test]
fn counted_build_does_not_run_without_sources() {
    let mut cache: Manager<&str, Program> = Manager::new();
    let mut build = Counted::new(link);
    assert_eq!(
        cache.load_counted("x", "y", &mut build).map(|p| p.clone()),
        Err(LoadError::MissingSource("x"))
    );
    cache.store("x", "one".to_string());
    assert_eq!(
        cache.load_counted("x", "y", &mut build).map(|p| p.clone()),
        Err(LoadError::MissingSource("y"))
    );
    assert_eq!(build.runs(), 0);
}

#[test]
fn counted_build_runs_again_after_each_failure() {
    let mut cache: Manager<&str, Program> = Manager::new();
    cache.store("v", "a".to_string());
    cache.store("f", "b".to_string());
    let mut failing = Counted::new(|_: &String, _: &String| Err::<Program, u8>(9));
    for attempt in 1..4 {
        assert_eq!(
            cache.load_counted("v", "f", &mut failing).map(|p| p.clone()),
            Err(LoadError::Build(9))
        );
        assert_eq!(failing.runs(), attempt);
    }
}

#[test]
fn counted_run_counts_each_call() {
    let mut build = Counted::new(link);
    let (v, f) = ("a".to_string(), "b".to_string());
    assert_eq!(build.run(&v, &f), Ok(Program("a+b".to_string())));
    assert_eq!(build.run(&f, &v), Ok(Program("b+a".to_string())));
    assert_eq!(build.runs(), 2);
}

#[test]
fn fetch_hands_out_or_says_what_is_missing() {
    let mut cache: Manager<&str, Program> = Manager::new();
    let missing: Error = cache.fetch(&"v", &"f").err().unwrap();
    assert_eq!(missing.description(), "requested program does not exist");
    assert_eq!(missing.detail_text(), None);
    cache.store("v", "a".to_string());
    cache.store("f", "b".to_string());
    assert_eq!(cache.compile("v", "f", link), Ok(()));
    assert_eq!(cache.fetch(&"v", &"f").ok(), Some(&Program("a+b".to_string())));
    assert!(cache.fetch(&"f", &"v").is_err());
}

#[test]
fn compiled_text_is_a_resource() {
    let mut cache: Manager<&str, String> = Manager::new();
    cache.store("v", "a".to_string());
    cache.store("f", "b".to_string());
    let built = cache
        .load("v", "f", |v: &String, f: &String| Ok::<String, ()>(format!("{}{}", v, f)))
        .map(|text| text.clone());
    assert_eq!(built, Ok("ab".to_string()));
}

#[test]
fn missing_shader_says_which_of_the_two() {
    let vertex = missing_shader(&"cube.vert", &"cube.vert");
    assert_eq!(vertex.description(), "missing vertex shader");
    assert_eq!(vertex.detail_text(), None);
    let fragment = missing_shader(&"cube.frag", &"cube.vert");
    assert_eq!(fragment.description(), "missing fragment shader");
    assert_eq!(fragment.detail_text(), None);

    let mut cache: Manager<&str, Program> = Manager::new();
    cache.store("cube.frag", "f".to_string());
    match cache.compile("cube.vert", "cube.frag", link) {
        Err(LoadError::MissingSource(id)) => {
            assert_eq!(missing_shader(&id, &"cube.vert").description(), "missing vertex shader")
        }
        other => panic!("{:?}", other),
    }
}
