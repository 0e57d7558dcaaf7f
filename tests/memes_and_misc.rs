use copilot_mcp_tool::decimal::decimal_text;
use copilot_mcp_tool::json::JsonValue;
use copilot_mcp_tool::memes::{contains_text, emoji_for_category_name, meme_matches_folded};
use copilot_mcp_tool::syscmd::MemoryUsageOutput;
use copilot_mcp_tool::tools::{new_echo_tool, new_time_tool, new_weather_tool};
use copilot_mcp_tool::{
    category_emoji, category_name, filter_memes, get_memes, AnyMeme, DiskUsageInfo, DiskUsageOutput, EchoInput,
    LibSystemCommand, MemeCategory, MemeLoaderError, MemeSource, StaticMemeSource, TimeInput, WeatherInput,
};
use std::sync::Arc;

#[test]
fn category_helpers() {
    assert_eq!(category_name(&MemeCategory::CryptoMemes), "Crypto Memes");
    assert_eq!(category_name(&MemeCategory::FunMemes), "Fun Memes");
    assert_eq!(category_emoji(&MemeCategory::ComponentMemes), "🧩");
    assert_eq!(category_emoji(&MemeCategory::LeanMemes), "🎯");
}

#[test]
fn catalogue_has_two_per_category() {
    let memes = get_memes();
    assert_eq!(memes.len(), 12);
    assert_eq!(memes[0].id, "comp_001");
    assert_eq!(memes[6].name, "To The Moon");
    assert_eq!(memes[11].category, MemeCategory::FunMemes);
    assert_eq!(memes[4].tags, vec!["knowledge".to_string(), "graph".to_string(), "entities".to_string()]);
}

#[test]
fn filter_by_category_and_query() {
    let memes = get_memes();
    let all_crypto = filter_memes(&memes, &MemeCategory::CryptoMemes, "");
    assert_eq!(all_crypto.len(), 2);
    let moon = filter_memes(&memes, &MemeCategory::CryptoMemes, "MOON");
    assert_eq!(moon.len(), 1);
    assert_eq!(moon[0].id, "crypto_001");
    let by_tag = filter_memes(&memes, &MemeCategory::LeanMemes, "sorry");
    assert_eq!(by_tag.len(), 1);
    assert_eq!(by_tag[0].id, "lean_002");
    let by_description = filter_memes(&memes, &MemeCategory::WorkflowMemes, "pipeline visual");
    assert_eq!(by_description.len(), 1);
    assert!(filter_memes(&memes, &MemeCategory::FunMemes, "moon").is_empty());
}

#[test]
fn folded_matching() {
    assert!(meme_matches_folded("", "a", "b", &vec![]));
    assert!(meme_matches_folded("ob", "a", "bob", &vec![]));
    assert!(meme_matches_folded("t2", "a", "b", &vec!["t1".to_string(), "xt2".to_string()]));
    assert!(!meme_matches_folded("Q", "q", "q", &vec!["q".to_string()]));
    assert!(contains_text("hello", "ll"));
    assert!(!contains_text("he", "hello"));
}

#[test]
fn static_source() {
    let src = StaticMemeSource;
    assert_eq!(src.get_all_memes().unwrap().len(), 12);
    let fun = src.get_memes_by_category("Fun Memes").unwrap();
    assert_eq!(fun.len(), 2);
    assert_eq!(fun[0].name(), "This is Fine");
    assert_eq!(fun[0].category_name(), "Fun Memes");
    assert!(src.get_memes_by_category("Nope").unwrap().is_empty());
}

#[test]
fn loader_error_from_string() {
    let e = MemeLoaderError::from("boom".to_string());
    assert_eq!(e.message(), "Other error: boom");
    assert_eq!(MemeLoaderError::CategoryNotFound("x".to_string()).message(), "Category not found: x");
}

#[test]
fn decimal_texts() {
    assert_eq!(decimal_text(0), "0");
    assert_eq!(decimal_text(12345), "12345");
    assert_eq!(decimal_text(u64::MAX), "18446744073709551615");
}

#[test]
fn memory_in_kib() {
    let m = MemoryUsageOutput::from_bytes(2048, 1023, 4096, 1024, 0, 10240);
    assert_eq!(m.total_memory_kb, 2);
    assert_eq!(m.used_memory_kb, 0);
    assert_eq!(m.free_memory_kb, 4);
    assert_eq!(m.available_memory_kb, 1);
    assert_eq!(m.swap_total_kb, 0);
    assert_eq!(m.swap_used_kb, 10);
}

#[test]
fn tool_chain_direct() {
    let echo = Arc::new(new_echo_tool());
    assert_eq!(echo.echo(EchoInput { message: "m".to_string() }), "Echo: m");
    let time = Arc::new(new_time_tool(echo.clone()));
    assert_eq!(
        time.get_time_in_location(TimeInput { location: "Oslo".to_string() }),
        "The current time in Oslo is 12:00 PM."
    );
    let weather = new_weather_tool(time.clone());
    assert_eq!(
        weather.get_weather(WeatherInput { location: "TimeCity".to_string() }),
        "Weather in TimeCity is sunny, and The current time in TimeCity is 12:00 PM. Echo: Time for TimeCity"
    );
}

#[test]
fn meme_equality_and_category_emoji() {
    let memes = get_memes();
    let copy = memes[3].duplicate();
    assert!(memes[3].equals(&copy));
    assert!(!memes[3].equals(&memes[2]));
    assert_eq!(emoji_for_category_name("Crypto Memes"), "🚀");
    assert_eq!(emoji_for_category_name("Other"), "❓");
}

#[test]
fn disk_figures_in_gib() {
    let d = DiskUsageInfo::from_bytes("sda1".to_string(), 2 * 1073741824 + 5, 1073741823, "ext4".to_string(), "/".to_string());
    assert_eq!(d.total_space_gb, 2);
    assert_eq!(d.available_space_gb, 0);
    let out = DiskUsageOutput { disks: vec![d] };
    let v = out.to_json();
    let disks = match &v {
        JsonValue::Object(e) => &e[0].1,
        _ => panic!("expected an object"),
    };
    match disks {
        JsonValue::Array(items) => match &items[0] {
            JsonValue::Object(f) => {
                assert_eq!(f[0], ("name".to_string(), JsonValue::Str("sda1".to_string())));
                assert_eq!(f[1], ("total_space_gb".to_string(), JsonValue::Int(2)));
                assert_eq!(f[3], ("file_system".to_string(), JsonValue::Str("ext4".to_string())));
            },
            _ => panic!("expected a disk object"),
        },
        _ => panic!("expected a disks array"),
    }
}

#[test]
fn native_backend_reads_machine() {
    let lib = LibSystemCommand {};
    assert!(!lib.get_memory_usage().is_error());
    assert!(!lib.get_disk_usage().is_error());
    assert!(lib.list_ports().is_error());
    assert!(lib.list_processes().is_error());
}
