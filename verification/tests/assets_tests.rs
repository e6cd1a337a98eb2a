use luau_lsp_ext::assets::{purge_file_names, AssetCache, FFLAG_FILE_NAME, FFLAG_URL};
use luau_lsp_ext::errors::Error;

/// A download capability that counts its invocations.
struct CountingFetcher {
    calls: usize,
    outcome: Result<(), String>,
}

impl CountingFetcher {
    fn fetch(&mut self) -> Result<(), String> {
        self.calls += 1;
        self.outcome.clone()
    }
}

fn ensure_with(cache: &mut AssetCache, name: &str, url: &str, fetcher: &mut CountingFetcher) -> Result<String, Error> {
    // The caller fetches exactly where the file is absent, as the
    // contract asks.
    let fetch_result = if cache.contains(name) { None } else { Some(fetcher.fetch()) };
    cache.ensure(name, url, fetch_result)
}

#[test]
fn ensure_twice_fetches_once() {
    let mut cache = AssetCache::new();
    let mut fetcher = CountingFetcher { calls: 0, outcome: Ok(()) };
    let p1 = ensure_with(&mut cache, FFLAG_FILE_NAME, FFLAG_URL, &mut fetcher).unwrap();
    assert_eq!(p1, FFLAG_FILE_NAME);
    assert_eq!(fetcher.calls, 1);
    let p2 = ensure_with(&mut cache, FFLAG_FILE_NAME, FFLAG_URL, &mut fetcher).unwrap();
    assert_eq!(p2, FFLAG_FILE_NAME);
    assert_eq!(fetcher.calls, 1);
}

#[test]
fn ensure_failure_surfaces_download_error() {
    let mut cache = AssetCache::new();
    let mut fetcher = CountingFetcher { calls: 0, outcome: Err(String::from("timed out")) };
    let e = ensure_with(&mut cache, "api-docs.json", "https://example.invalid/docs", &mut fetcher)
        .unwrap_err();
    match e {
        Error::DownloadFailed { url, cause } => {
            assert_eq!(url, "https://example.invalid/docs");
            assert_eq!(cause, "timed out");
        },
        _ => panic!("expected DownloadFailed"),
    }
    // A failed fetch records nothing: the next ensure fetches again.
    assert!(!cache.contains("api-docs.json"));
    fetcher.outcome = Ok(());
    ensure_with(&mut cache, "api-docs.json", "https://example.invalid/docs", &mut fetcher).unwrap();
    assert_eq!(fetcher.calls, 2);
    assert!(cache.contains("api-docs.json"));
}

#[test]
fn caches_are_independent_per_name() {
    let mut cache = AssetCache::new();
    let mut fetcher = CountingFetcher { calls: 0, outcome: Ok(()) };
    ensure_with(&mut cache, "a.json", "https://example.invalid/a", &mut fetcher).unwrap();
    ensure_with(&mut cache, "b.json", "https://example.invalid/b", &mut fetcher).unwrap();
    assert_eq!(fetcher.calls, 2);
    assert!(cache.contains("a.json"));
    assert!(cache.contains("b.json"));
    assert!(!cache.contains("c.json"));
}

#[test]
fn purge_list_names_every_asset_file() {
    let names = purge_file_names();
    assert_eq!(
        names,
        vec![
            String::from("fflags.json"),
            String::from("api-docs.json"),
            String::from("globalTypes.RobloxScriptSecurity.d.luau"),
            String::from("globalTypes.LocalUserSecurity.d.luau"),
            String::from("globalTypes.PluginSecurity.d.luau"),
            String::from("globalTypes.None.d.luau"),
        ]
    );
}
