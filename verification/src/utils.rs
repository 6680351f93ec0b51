//! Validation of command-line texts, and the persistent key store: named text
//! records under configuration roots, by which a setup that ran once is found again.

use crate::error::{ClientError, ClientErrorView};
use crate::text::{is_trimmed, lemma_trim, spec_starts_with, spec_trim, starts_with, trim};
use crate::{
    COIN_MINT, COIN_WALLET, CONFIG_DIR, MARKET_PUBKEY, OPEN_ORDER, PC_MINT, PC_WALLET, PROGRAM_ID,
    URL, WALLET,
};
use vstd::prelude::*;
use vstd::string::StrSliceExecFns;

verus! {

/// Why the key store refused an operation.
#[derive(Clone, Copy, Debug)]
pub enum StoreError {
    /// The namespace is empty once it is trimmed.
    EmptyNamespace,
    /// The record's name is empty once it is trimmed.
    EmptyName,
    /// The value is empty once it is trimmed.
    EmptyValue,
    /// The namespace or the record is absent.
    NotFound,
    /// The namespace is the name of something that is no directory.
    NotADirectory,
}

/// What `StoreError::message` says of each refusal.
pub open spec fn store_error_text(e: StoreError) -> Seq<char> {
    match e {
        StoreError::EmptyNamespace => "The given dir name is empty"@,
        StoreError::EmptyName => "The given file name is empty"@,
        StoreError::EmptyValue => "The given content is empty"@,
        StoreError::NotFound => "The given path doesn't exist"@,
        StoreError::NotADirectory => "The given dir name isn't a directory"@,
    }
}

impl StoreError {
    /// The refusal in words.
    pub fn message(&self) -> (text: String)
        ensures
            text@ == store_error_text(*self),
    {
        match self {
            StoreError::EmptyNamespace => "The given dir name is empty".to_owned(),
            StoreError::EmptyName => "The given file name is empty".to_owned(),
            StoreError::EmptyValue => "The given content is empty".to_owned(),
            StoreError::NotFound => "The given path doesn't exist".to_owned(),
            StoreError::NotADirectory => "The given dir name isn't a directory".to_owned(),
        }
    }
}

/// Whether a text can name a namespace or a record, or be a record's value: it is not
/// empty and has no whitespace at its start or its end.
pub open spec fn is_stored_text(s: Seq<char>) -> bool {
    s.len() > 0 && is_trimmed(s)
}

/// What a key store holds: its namespaces, the names under the root that are taken by
/// something else than a namespace, the records, each under a namespace and a name, and
/// the order in which the records came into the store.
pub struct StoreView {
    pub dirs: Set<Seq<char>>,
    pub files: Set<Seq<char>>,
    pub records: Map<(Seq<char>, Seq<char>), Seq<char>>,
    pub order: Seq<(Seq<char>, Seq<char>)>,
}

/// The keys outside the namespace `dir`, in their order.
pub open spec fn keys_outside(order: Seq<(Seq<char>, Seq<char>)>, dir: Seq<char>) -> Seq<
    (Seq<char>, Seq<char>),
>
    decreases order.len(),
{
    if order.len() == 0 {
        order
    } else if order.last().0 == dir {
        keys_outside(order.drop_last(), dir)
    } else {
        keys_outside(order.drop_last(), dir).push(order.last())
    }
}

/// The names and values of the records under the namespace `dir` among these keys, in
/// their order.
pub open spec fn entries_under(
    order: Seq<(Seq<char>, Seq<char>)>,
    records: Map<(Seq<char>, Seq<char>), Seq<char>>,
    dir: Seq<char>,
) -> Seq<(Seq<char>, Seq<char>)>
    decreases order.len(),
{
    if order.len() == 0 {
        Seq::empty()
    } else if order.last().0 == dir {
        entries_under(order.drop_last(), records, dir).push((order.last().1, records[order.last()]))
    } else {
        entries_under(order.drop_last(), records, dir)
    }
}

/// The names and values of the records under the namespace `dir_name`, in the order in
/// which they came into the store.
pub open spec fn spec_list_files(store: StoreView, dir_name: Seq<char>) -> Seq<
    (Seq<char>, Seq<char>),
> {
    entries_under(store.order, store.records, dir_name)
}

/// The store without the namespace `dir` and without the records under it.
pub open spec fn without_namespace(store: StoreView, dir: Seq<char>) -> StoreView {
    StoreView {
        dirs: store.dirs.remove(dir),
        files: store.files,
        records: store.records.remove_keys(
            Set::new(|key: (Seq<char>, Seq<char>)| key.0 == dir),
        ),
        order: keys_outside(store.order, dir),
    }
}

/// What writing a record does to the store, or why the store refuses it. The namespace,
/// the name and the value are trimmed first and none of them may then be empty; the
/// namespace comes into being with its first record. A new record comes last in the
/// order; a record that is replaced keeps its place.
pub open spec fn spec_write_file(
    store: StoreView,
    dir_name: Seq<char>,
    file_name: Seq<char>,
    content: Seq<char>,
) -> Result<StoreView, StoreError> {
    let dir = spec_trim(dir_name);
    let file = spec_trim(file_name);
    let value = spec_trim(content);
    if dir.len() == 0 {
        Err(StoreError::EmptyNamespace)
    } else if file.len() == 0 {
        Err(StoreError::EmptyName)
    } else if value.len() == 0 {
        Err(StoreError::EmptyValue)
    } else if store.files.contains(dir) {
        Err(StoreError::NotADirectory)
    } else {
        Ok(
            StoreView {
                dirs: store.dirs.insert(dir),
                files: store.files,
                records: store.records.insert((dir, file), value),
                order: if store.records.contains_key((dir, file)) {
                    store.order
                } else {
                    store.order.push((dir, file))
                },
            },
        )
    }
}

/// The store with `value` as the record `file_name` of the configuration root.
pub open spec fn with_config(
    store: StoreView,
    file_name: Seq<char>,
    value: Seq<char>,
) -> StoreView {
    StoreView {
        dirs: store.dirs.insert(CONFIG_DIR@),
        files: store.files,
        records: store.records.insert((CONFIG_DIR@, file_name), value),
        order: if store.records.contains_key((CONFIG_DIR@, file_name)) {
            store.order
        } else {
            store.order.push((CONFIG_DIR@, file_name))
        },
    }
}

/// The configuration root and the names of its records are texts that the store keeps
/// as they are, and the names of the setup's five records differ from one another.
pub proof fn lemma_config_names()
    ensures
        is_stored_text(CONFIG_DIR@),
        is_stored_text(COIN_MINT@),
        is_stored_text(PC_MINT@),
        is_stored_text(COIN_WALLET@),
        is_stored_text(PC_WALLET@),
        is_stored_text(MARKET_PUBKEY@),
        is_stored_text(OPEN_ORDER@),
        is_stored_text(URL@),
        is_stored_text(PROGRAM_ID@),
        is_stored_text(WALLET@),
        COIN_MINT@ != PC_MINT@,
        COIN_MINT@ != COIN_WALLET@,
        COIN_MINT@ != PC_WALLET@,
        COIN_MINT@ != MARKET_PUBKEY@,
        PC_MINT@ != COIN_WALLET@,
        PC_MINT@ != PC_WALLET@,
        PC_MINT@ != MARKET_PUBKEY@,
        COIN_WALLET@ != PC_WALLET@,
        COIN_WALLET@ != MARKET_PUBKEY@,
        PC_WALLET@ != MARKET_PUBKEY@,
{
    reveal_strlit("configs");
    reveal_strlit("coin_mint.json");
    reveal_strlit("pc_mint.json");
    reveal_strlit("coin_wallet.json");
    reveal_strlit("pc_wallet.json");
    reveal_strlit("market_pubkey.json");
    reveal_strlit("open_order_pubkey.json");
    reveal_strlit("url.json");
    reveal_strlit("program_id.json");
    reveal_strlit("wallet.json");
    assert(COIN_MINT@[0] != PC_WALLET@[0]);
}

/// Writing a record of the configuration root whose name and value are texts that the
/// store keeps as they are succeeds unless the root's name is taken by something that is
/// no namespace, and then leaves the store with that record.
pub proof fn lemma_write_config(store: StoreView, file_name: Seq<char>, value: Seq<char>)
    requires
        is_stored_text(file_name),
        is_stored_text(value),
    ensures
        spec_write_file(store, CONFIG_DIR@, file_name, value) == if store.files.contains(
            CONFIG_DIR@,
        ) {
            Err::<StoreView, StoreError>(StoreError::NotADirectory)
        } else {
            Ok::<StoreView, StoreError>(with_config(store, file_name, value))
        },
        spec_read_file(with_config(store, file_name, value), CONFIG_DIR@, file_name) == Ok::<
            Seq<char>,
            StoreError,
        >(value),
{
    lemma_config_names();
    lemma_trim(CONFIG_DIR@);
    lemma_trim(file_name);
    lemma_trim(value);
}

/// What reading a record returns: the value under the trimmed namespace and name, or
/// `NotFound`.
pub open spec fn spec_read_file(
    store: StoreView,
    dir_name: Seq<char>,
    file_name: Seq<char>,
) -> Result<Seq<char>, StoreError> {
    let key = (spec_trim(dir_name), spec_trim(file_name));
    if store.records.contains_key(key) {
        Ok(store.records[key])
    } else {
        Err(StoreError::NotFound)
    }
}

/// What removing a namespace does to the store, or why the store refuses it.
pub open spec fn spec_remove_dir_and_files(store: StoreView, dir_name: Seq<char>) -> Result<
    StoreView,
    StoreError,
> {
    if dir_name.len() == 0 {
        Err(StoreError::EmptyNamespace)
    } else if store.dirs.contains(dir_name) {
        Ok(without_namespace(store, dir_name))
    } else if store.files.contains(dir_name) {
        Err(StoreError::NotADirectory)
    } else {
        Err(StoreError::NotFound)
    }
}

/// Whether the store is one that the operations keep: every record lies under a
/// namespace of the store, no name is both a namespace and something else, every text
/// in it is trimmed and not empty, and the order holds the key of every record once.
pub open spec fn is_consistent(store: StoreView) -> bool {
    &&& forall|key: (Seq<char>, Seq<char>)| #[trigger]
        store.records.contains_key(key) ==> store.dirs.contains(key.0) && is_stored_text(key.0)
            && is_stored_text(key.1) && is_stored_text(store.records[key])
    &&& forall|dir: Seq<char>| #[trigger]
        store.dirs.contains(dir) ==> is_stored_text(dir) && !store.files.contains(dir)
    &&& store.order.no_duplicates()
    &&& forall|key: (Seq<char>, Seq<char>)|
        store.order.contains(key) <==> #[trigger] store.records.contains_key(key)
}

/// Leaving a namespace out of the keys keeps the other keys, each once and in their
/// order.
pub proof fn lemma_keys_outside(order: Seq<(Seq<char>, Seq<char>)>, dir: Seq<char>)
    requires
        order.no_duplicates(),
    ensures
        keys_outside(order, dir).no_duplicates(),
        forall|key: (Seq<char>, Seq<char>)| #[trigger]
            keys_outside(order, dir).contains(key) <==> order.contains(key) && key.0 != dir,
    decreases order.len(),
{
    let kept = keys_outside(order, dir);
    if order.len() > 0 {
        let init = order.drop_last();
        let last = order.last();
        let kept_init = keys_outside(init, dir);
        lemma_keys_outside(init, dir);
        assert forall|key: (Seq<char>, Seq<char>)| #[trigger]
            order.contains(key) <==> init.contains(key) || key == last by {
            if order.contains(key) {
                let i = choose|i: int| 0 <= i < order.len() && order[i] == key;
                if i < init.len() {
                    assert(init[i] == key);
                }
            }
            if init.contains(key) {
                let i = choose|i: int| 0 <= i < init.len() && init[i] == key;
                assert(order[i] == key);
            }
            assert(order[order.len() - 1] == last);
        }
        assert(!init.contains(last)) by {
            if init.contains(last) {
                let i = choose|i: int| 0 <= i < init.len() && init[i] == last;
                assert(order[i] == order[order.len() - 1]);
            }
        }
        if last.0 != dir {
            assert(kept == kept_init.push(last));
            assert forall|key: (Seq<char>, Seq<char>)| #[trigger]
                kept.contains(key) <==> kept_init.contains(key) || key == last by {
                if kept.contains(key) {
                    let i = choose|i: int| 0 <= i < kept.len() && kept[i] == key;
                    if i < kept_init.len() {
                        assert(kept_init[i] == key);
                    }
                }
                if kept_init.contains(key) {
                    let i = choose|i: int| 0 <= i < kept_init.len() && kept_init[i] == key;
                    assert(kept[i] == key);
                }
                assert(kept[kept.len() - 1] == last);
            }
            assert forall|i: int, j: int|
                0 <= i < kept.len() && 0 <= j < kept.len() && i != j implies kept[i]
                != kept[j] by {
                if i < kept_init.len() && j < kept_init.len() {
                    assert(kept_init[i] != kept_init[j]);
                } else if i < kept_init.len() {
                    assert(kept_init[i] == kept[i]);
                    assert(kept_init.contains(kept[i]));
                } else {
                    assert(kept_init[j] == kept[j]);
                    assert(kept_init.contains(kept[j]));
                }
            }
        }
    }
}

/// A record that was written is read back with its trimmed value, under the namespace
/// and the name that it was written under.
pub proof fn lemma_write_then_read(
    store: StoreView,
    dir_name: Seq<char>,
    file_name: Seq<char>,
    content: Seq<char>,
)
    requires
        spec_write_file(store, dir_name, file_name, content) is Ok,
    ensures
        spec_read_file(
            spec_write_file(store, dir_name, file_name, content)->Ok_0,
            dir_name,
            file_name,
        ) == Ok::<Seq<char>, StoreError>(spec_trim(content)),
{
}

/// Writing a record leaves every other record as it was.
pub proof fn lemma_write_keeps_others(
    store: StoreView,
    dir_name: Seq<char>,
    file_name: Seq<char>,
    content: Seq<char>,
    other_dir: Seq<char>,
    other_file: Seq<char>,
)
    requires
        spec_write_file(store, dir_name, file_name, content) is Ok,
        (spec_trim(other_dir), spec_trim(other_file)) != (
            spec_trim(dir_name),
            spec_trim(file_name),
        ),
    ensures
        spec_read_file(
            spec_write_file(store, dir_name, file_name, content)->Ok_0,
            other_dir,
            other_file,
        ) == spec_read_file(store, other_dir, other_file),
{
}

/// A name that was never written is not found: not in a store that holds nothing, and
/// not in any store that holds no record under it.
pub proof fn lemma_read_unset(store: StoreView, dir_name: Seq<char>, file_name: Seq<char>)
    requires
        !store.records.contains_key((spec_trim(dir_name), spec_trim(file_name))),
    ensures
        spec_read_file(store, dir_name, file_name) == Err::<Seq<char>, StoreError>(
            StoreError::NotFound,
        ),
{
}

/// Once a namespace was removed, no record is found under it.
pub proof fn lemma_remove_then_read(store: StoreView, dir_name: Seq<char>, file_name: Seq<char>)
    requires
        is_consistent(store),
        spec_remove_dir_and_files(store, dir_name) is Ok,
    ensures
        spec_read_file(spec_remove_dir_and_files(store, dir_name)->Ok_0, dir_name, file_name)
            == Err::<Seq<char>, StoreError>(StoreError::NotFound),
        !spec_remove_dir_and_files(store, dir_name)->Ok_0.dirs.contains(dir_name),
{
    assert(store.dirs.contains(dir_name));
    assert(is_stored_text(dir_name));
    lemma_trim(dir_name);
}

/// Writing and removing keep a consistent store consistent.
pub proof fn lemma_consistency_is_kept(
    store: StoreView,
    dir_name: Seq<char>,
    file_name: Seq<char>,
    content: Seq<char>,
)
    requires
        is_consistent(store),
    ensures
        spec_write_file(store, dir_name, file_name, content) matches Ok(written)
            ==> is_consistent(written),
        spec_remove_dir_and_files(store, dir_name) matches Ok(removed) ==> is_consistent(removed),
{
    lemma_trim(dir_name);
    lemma_trim(file_name);
    lemma_trim(content);
    lemma_keys_outside(store.order, dir_name);
    match spec_write_file(store, dir_name, file_name, content) {
        Ok(written) => {
            let key = (spec_trim(dir_name), spec_trim(file_name));
            if !store.records.contains_key(key) {
                lemma_push_key(store.order, key);
            }
            assert forall|k: (Seq<char>, Seq<char>)|
                written.order.contains(k) <==> #[trigger] written.records.contains_key(k) by {
                assert(store.order.contains(k) <==> store.records.contains_key(k));
            }
        },
        Err(_) => {},
    }
    match spec_remove_dir_and_files(store, dir_name) {
        Ok(removed) => {
            assert forall|k: (Seq<char>, Seq<char>)|
                removed.order.contains(k) <==> #[trigger] removed.records.contains_key(k) by {
                assert(store.order.contains(k) <==> store.records.contains_key(k));
            }
        },
        Err(_) => {},
    }
}

proof fn lemma_push_key(order: Seq<(Seq<char>, Seq<char>)>, key: (Seq<char>, Seq<char>))
    requires
        order.no_duplicates(),
        !order.contains(key),
    ensures
        order.push(key).no_duplicates(),
        forall|k: (Seq<char>, Seq<char>)| #[trigger]
            order.push(key).contains(k) <==> order.contains(k) || k == key,
{
    let pushed = order.push(key);
    assert forall|k: (Seq<char>, Seq<char>)| #[trigger]
        pushed.contains(k) <==> order.contains(k) || k == key by {
        if pushed.contains(k) {
            let i = choose|i: int| 0 <= i < pushed.len() && pushed[i] == k;
            if i < order.len() {
                assert(order[i] == k);
            }
        }
        if order.contains(k) {
            let i = choose|i: int| 0 <= i < order.len() && order[i] == k;
            assert(pushed[i] == k);
        }
        assert(pushed[order.len() as int] == key);
    }
    assert forall|i: int, j: int|
        0 <= i < pushed.len() && 0 <= j < pushed.len() && i != j implies pushed[i]
        != pushed[j] by {
        if i < order.len() && j < order.len() {
            assert(order[i] != order[j]);
        } else if i < order.len() {
            assert(order[i] == pushed[i]);
        } else {
            assert(order[j] == pushed[j]);
        }
    }
}

/// One record.
struct Record {
    namespace: String,
    name: String,
    value: String,
}

/// The key store, as the library sees it. Its caller keeps the configuration roots on
/// disk in step with it, and runs one operation at a time on a configuration root:
/// nothing keeps two processes apart that work on the same root.
pub struct KeyStore {
    dirs: Vec<String>,
    files: Vec<String>,
    records: Vec<Record>,
}

spec fn texts(names: Seq<String>) -> Seq<Seq<char>> {
    Seq::new(names.len(), |i: int| names[i]@)
}

spec fn keys(records: Seq<Record>) -> Seq<(Seq<char>, Seq<char>)> {
    Seq::new(records.len(), |i: int| (records[i].namespace@, records[i].name@))
}

spec fn values(records: Seq<Record>) -> Seq<Seq<char>> {
    Seq::new(records.len(), |i: int| records[i].value@)
}

spec fn record_map(records: Seq<Record>) -> Map<(Seq<char>, Seq<char>), Seq<char>> {
    Map::new(
        |key: (Seq<char>, Seq<char>)| keys(records).contains(key),
        |key: (Seq<char>, Seq<char>)| values(records)[keys(records).index_of(key)],
    )
}

/// The records outside the namespace `dir`, in their order.
spec fn outside(records: Seq<Record>, dir: Seq<char>) -> Seq<Record>
    decreases records.len(),
{
    if records.len() == 0 {
        records
    } else if records.last().namespace@ == dir {
        outside(records.drop_last(), dir)
    } else {
        outside(records.drop_last(), dir).push(records.last())
    }
}

/// The names and values of the records in the namespace `dir`, in their order.
spec fn inside(records: Seq<Record>, dir: Seq<char>) -> Seq<(Seq<char>, Seq<char>)>
    decreases records.len(),
{
    if records.len() == 0 {
        Seq::empty()
    } else if records.last().namespace@ == dir {
        inside(records.drop_last(), dir).push((records.last().name@, records.last().value@))
    } else {
        inside(records.drop_last(), dir)
    }
}

proof fn lemma_record_map(records: Seq<Record>, i: int)
    requires
        keys(records).no_duplicates(),
        0 <= i < records.len(),
    ensures
        record_map(records).contains_key(keys(records)[i]),
        record_map(records)[keys(records)[i]] == records[i].value@,
{
    let key = keys(records)[i];
    assert(keys(records).contains(key));
    let found = keys(records).index_of(key);
    assert(keys(records)[found] == key);
}

proof fn lemma_outside(records: Seq<Record>, dir: Seq<char>)
    requires
        keys(records).no_duplicates(),
    ensures
        keys(outside(records, dir)).no_duplicates(),
        forall|key: (Seq<char>, Seq<char>)| #[trigger]
            keys(outside(records, dir)).contains(key) <==> keys(records).contains(key) && key.0
                != dir,
        record_map(outside(records, dir)) == record_map(records).remove_keys(
            Set::new(|key: (Seq<char>, Seq<char>)| key.0 == dir),
        ),
        forall|k: int|
            0 <= k < outside(records, dir).len() ==> records.contains(
                #[trigger] outside(records, dir)[k],
            ),
    decreases records.len(),
{
    let kept = outside(records, dir);
    let gone = Set::new(|key: (Seq<char>, Seq<char>)| key.0 == dir);
    if records.len() == 0 {
        assert(record_map(kept) =~= record_map(records).remove_keys(gone));
    } else {
        let init = records.drop_last();
        let last = records.last();
        let last_key = (last.namespace@, last.name@);
        assert(keys(init) =~= keys(records).drop_last());
        assert(keys(records)[records.len() - 1] == last_key);
        assert(keys(init).no_duplicates());
        lemma_outside(init, dir);
        let kept_init = outside(init, dir);
        assert forall|key: (Seq<char>, Seq<char>)| #[trigger]
            keys(records).contains(key) <==> keys(init).contains(key) || key == last_key by {
            if keys(records).contains(key) {
                let i = choose|i: int| 0 <= i < keys(records).len() && keys(records)[i] == key;
                if i < init.len() {
                    assert(keys(init)[i] == key);
                }
            }
            if keys(init).contains(key) {
                let i = choose|i: int| 0 <= i < keys(init).len() && keys(init)[i] == key;
                assert(keys(records)[i] == key);
            }
        }
        assert(!keys(init).contains(last_key)) by {
            if keys(init).contains(last_key) {
                let i = choose|i: int| 0 <= i < keys(init).len() && keys(init)[i] == last_key;
                assert(keys(records)[i] == last_key);
            }
        }
        if last.namespace@ == dir {
            assert(kept == kept_init);
        } else {
            assert(kept == kept_init.push(last));
            assert(keys(kept) =~= keys(kept_init).push(last_key));
            assert forall|key: (Seq<char>, Seq<char>)| #[trigger]
                keys(kept).contains(key) <==> keys(kept_init).contains(key) || key
                    == last_key by {
                if keys(kept).contains(key) {
                    let i = choose|i: int| 0 <= i < keys(kept).len() && keys(kept)[i] == key;
                    if i < kept_init.len() {
                        assert(keys(kept_init)[i] == key);
                    }
                }
                if keys(kept_init).contains(key) {
                    let i = choose|i: int|
                        0 <= i < keys(kept_init).len() && keys(kept_init)[i] == key;
                    assert(keys(kept)[i] == key);
                }
                assert(keys(kept)[kept.len() - 1] == last_key);
            }
            assert(keys(kept).no_duplicates()) by {
                assert forall|i: int, j: int|
                    0 <= i < keys(kept).len() && 0 <= j < keys(kept).len() && i
                        != j implies keys(kept)[i] != keys(kept)[j] by {
                    if i < kept_init.len() && j < kept_init.len() {
                        assert(keys(kept_init)[i] != keys(kept_init)[j]);
                    } else if i < kept_init.len() {
                        assert(keys(kept_init)[i] == keys(kept)[i]);
                        assert(keys(kept_init).contains(keys(kept)[i]));
                    } else {
                        assert(keys(kept_init)[j] == keys(kept)[j]);
                        assert(keys(kept_init).contains(keys(kept)[j]));
                    }
                }
            }
        }
        assert forall|k: int| 0 <= k < kept.len() implies records.contains(#[trigger] kept[k]) by {
            if k < kept_init.len() {
                assert(init.contains(kept_init[k]));
                let i = choose|i: int| 0 <= i < init.len() && init[i] == kept_init[k];
                assert(records[i] == kept[k]);
            } else {
                assert(records[records.len() - 1] == kept[k]);
            }
        }
        assert forall|key: (Seq<char>, Seq<char>)|
            record_map(kept).contains_key(key) implies #[trigger] record_map(kept)[key]
            == record_map(records)[key] by {
            let i = choose|i: int| 0 <= i < keys(kept).len() && keys(kept)[i] == key;
            lemma_record_map(kept, i);
            assert(records.contains(kept[i]));
            let j = choose|j: int| 0 <= j < records.len() && records[j] == kept[i];
            assert(keys(records)[j] == key);
            lemma_record_map(records, j);
        }
        assert(record_map(kept) =~= record_map(records).remove_keys(gone));
    }
}

proof fn lemma_keys_of_outside(records: Seq<Record>, dir: Seq<char>)
    ensures
        keys(outside(records, dir)) == keys_outside(keys(records), dir),
    decreases records.len(),
{
    if records.len() == 0 {
        assert(keys(outside(records, dir)) =~= keys_outside(keys(records), dir));
    } else {
        let init = records.drop_last();
        let last = records.last();
        lemma_keys_of_outside(init, dir);
        assert(keys(init) =~= keys(records).drop_last());
        assert(keys(records).last() == (last.namespace@, last.name@));
        if last.namespace@ != dir {
            assert(keys(outside(init, dir).push(last)) =~= keys(outside(init, dir)).push(
                (last.namespace@, last.name@),
            ));
        }
    }
}

proof fn lemma_entries_of_inside(records: Seq<Record>, count: int, dir: Seq<char>)
    requires
        keys(records).no_duplicates(),
        0 <= count <= records.len(),
    ensures
        inside(records.take(count), dir) == entries_under(
            keys(records).take(count),
            record_map(records),
            dir,
        ),
    decreases count,
{
    let some = records.take(count);
    let some_keys = keys(records).take(count);
    if count == 0 {
        assert(inside(some, dir) =~= entries_under(some_keys, record_map(records), dir));
    } else {
        lemma_entries_of_inside(records, count - 1, dir);
        assert(some.drop_last() =~= records.take(count - 1));
        assert(some_keys.drop_last() =~= keys(records).take(count - 1));
        assert(some_keys.last() == keys(records)[count - 1]);
        assert(some.last() == records[count - 1]);
        lemma_record_map(records, count - 1);
    }
}

proof fn lemma_push_to_set(names: Seq<Seq<char>>, name: Seq<char>)
    ensures
        names.push(name).to_set() == names.to_set().insert(name),
        !names.contains(name) && names.no_duplicates() ==> names.push(name).no_duplicates(),
{
    let pushed = names.push(name);
    assert forall|x: Seq<char>| pushed.to_set().contains(x) <==> names.to_set().insert(
        name,
    ).contains(x) by {
        if pushed.contains(x) {
            let i = choose|i: int| 0 <= i < pushed.len() && pushed[i] == x;
            if i < names.len() {
                assert(names[i] == x);
            }
        }
        if names.contains(x) {
            let i = choose|i: int| 0 <= i < names.len() && names[i] == x;
            assert(pushed[i] == x);
        }
        assert(pushed[names.len() as int] == name);
    }
    assert(pushed.to_set() =~= names.to_set().insert(name));
    if !names.contains(name) && names.no_duplicates() {
        assert forall|i: int, j: int|
            0 <= i < pushed.len() && 0 <= j < pushed.len() && i != j implies pushed[i]
            != pushed[j] by {
            if i < names.len() && j < names.len() {
                assert(names[i] != names[j]);
            } else if i < names.len() {
                assert(names[i] == pushed[i]);
            } else {
                assert(names[j] == pushed[j]);
            }
        }
    }
}

proof fn lemma_remove_to_set(names: Seq<Seq<char>>, at: int)
    requires
        names.no_duplicates(),
        0 <= at < names.len(),
    ensures
        names.remove(at).to_set() == names.to_set().remove(names[at]),
        names.remove(at).no_duplicates(),
{
    let rest = names.remove(at);
    assert forall|x: Seq<char>| rest.to_set().contains(x) <==> names.to_set().remove(
        names[at],
    ).contains(x) by {
        if rest.contains(x) {
            let i = choose|i: int| 0 <= i < rest.len() && rest[i] == x;
            if i < at {
                assert(names[i] == x);
            } else {
                assert(names[i + 1] == x);
            }
        }
        if names.contains(x) && x != names[at] {
            let i = choose|i: int| 0 <= i < names.len() && names[i] == x;
            if i < at {
                assert(rest[i] == x);
            } else {
                assert(rest[i - 1] == x);
            }
        }
    }
    assert(rest.to_set() =~= names.to_set().remove(names[at]));
    assert forall|i: int, j: int|
        0 <= i < rest.len() && 0 <= j < rest.len() && i != j implies rest[i] != rest[j] by {
        let i0 = if i < at { i } else { i + 1 };
        let j0 = if j < at { j } else { j + 1 };
        assert(names[i0] != names[j0]);
    }
}

proof fn lemma_push_record(
    before: Seq<Record>,
    after: Seq<Record>,
    key: (Seq<char>, Seq<char>),
    value: Seq<char>,
)
    requires
        keys(before).no_duplicates(),
        !keys(before).contains(key),
        keys(after) == keys(before).push(key),
        values(after) == values(before).push(value),
    ensures
        keys(after).no_duplicates(),
        record_map(after) == record_map(before).insert(key, value),
{
    let ks = keys(after);
    assert forall|i: int, j: int| 0 <= i < ks.len() && 0 <= j < ks.len() && i != j implies ks[i]
        != ks[j] by {
        if i < before.len() && j < before.len() {
            assert(keys(before)[i] != keys(before)[j]);
        } else if i < before.len() {
            assert(keys(before)[i] == ks[i]);
        } else {
            assert(keys(before)[j] == ks[j]);
        }
    }
    assert(ks[before.len() as int] == key);
    assert forall|k: (Seq<char>, Seq<char>)| ks.contains(k) <==> keys(before).contains(k) || k
        == key by {
        if ks.contains(k) {
            let i = choose|i: int| 0 <= i < ks.len() && ks[i] == k;
            if i < before.len() {
                assert(keys(before)[i] == k);
            }
        }
        if keys(before).contains(k) {
            let i = choose|i: int| 0 <= i < keys(before).len() && keys(before)[i] == k;
            assert(ks[i] == k);
        }
    }
    assert forall|k: (Seq<char>, Seq<char>)| ks.contains(k) implies #[trigger] record_map(after)[k]
        == record_map(before).insert(key, value)[k] by {
        let i = ks.index_of(k);
        assert(ks[i] == k);
        if k != key {
            let j = keys(before).index_of(k);
            assert(keys(before)[j] == k);
            assert(ks[j] == k);
            assert(i == j);
        } else {
            if i < before.len() {
                assert(keys(before)[i] == k);
            }
        }
    }
    assert(record_map(after) =~= record_map(before).insert(key, value));
}

impl View for KeyStore {
    type V = StoreView;

    closed spec fn view(&self) -> StoreView {
        StoreView {
            dirs: texts(self.dirs@).to_set(),
            files: texts(self.files@).to_set(),
            records: record_map(self.records@),
            order: keys(self.records@),
        }
    }
}

impl KeyStore {
    /// Whether the store is well formed: nothing is held twice and what it holds is
    /// consistent.
    pub closed spec fn wf(&self) -> bool {
        &&& texts(self.dirs@).no_duplicates()
        &&& texts(self.files@).no_duplicates()
        &&& keys(self.records@).no_duplicates()
        &&& is_consistent(self@)
    }

    /// A well-formed store is consistent.
    pub proof fn lemma_wf(&self)
        requires
            self.wf(),
        ensures
            is_consistent(self@),
    {
    }

    /// A store that holds nothing.
    pub fn new() -> (store: KeyStore)
        ensures
            store.wf(),
            store@.dirs == Set::<Seq<char>>::empty(),
            store@.files == Set::<Seq<char>>::empty(),
            store@.records == Map::<(Seq<char>, Seq<char>), Seq<char>>::empty(),
            store@.order == Seq::<(Seq<char>, Seq<char>)>::empty(),
    {
        let store = KeyStore { dirs: Vec::new(), files: Vec::new(), records: Vec::new() };
        assert(store@.dirs =~= Set::<Seq<char>>::empty());
        assert(store@.files =~= Set::<Seq<char>>::empty());
        assert(store@.records =~= Map::<(Seq<char>, Seq<char>), Seq<char>>::empty());
        assert(store@.order =~= Seq::<(Seq<char>, Seq<char>)>::empty());
        store
    }

    fn find_text(names: &Vec<String>, name: &String) -> (at: Option<usize>)
        ensures
            match at {
                Some(i) => i < names@.len() && names@[i as int]@ == name@,
                None => !texts(names@).contains(name@),
            },
    {
        let mut i: usize = 0;
        while i < names.len()
            invariant
                i <= names@.len(),
                forall|k: int| 0 <= k < i ==> names@[k]@ != name@,
            decreases names@.len() - i,
        {
            if names[i] == *name {
                return Some(i);
            }
            i += 1;
        }
        assert forall|k: int| 0 <= k < texts(names@).len() implies texts(names@)[k] != name@ by {}
        None
    }

    fn find_record(&self, namespace: &String, name: &String) -> (at: Option<usize>)
        ensures
            match at {
                Some(i) => i < self.records@.len() && keys(self.records@)[i as int] == (
                    namespace@,
                    name@,
                ),
                None => !keys(self.records@).contains((namespace@, name@)),
            },
    {
        let mut i: usize = 0;
        while i < self.records.len()
            invariant
                i <= self.records@.len(),
                forall|k: int| 0 <= k < i ==> keys(self.records@)[k] != (namespace@, name@),
            decreases self.records@.len() - i,
        {
            if self.records[i].namespace == *namespace && self.records[i].name == *name {
                return Some(i);
            }
            i += 1;
        }
        None
    }
}

/// Whether `name` can be stored: it is not empty and has no whitespace around it.
fn can_be_stored(name: &str) -> (valid: bool)
    ensures
        valid == is_stored_text(name@),
{
    proof {
        lemma_trim(name@);
    }
    !name.is_empty() && trim(name).unicode_len() == name.unicode_len()
}

/// Notes that `name` is taken under the root by something that is no namespace, a plain
/// file for one. A name that could not name a namespace, or that names one, is not
/// noted.
pub fn note_plain_file(store: &mut KeyStore, name: &str) -> (noted: bool)
    requires
        old(store).wf(),
    ensures
        final(store).wf(),
        noted == (is_stored_text(name@) && !old(store)@.dirs.contains(name@)),
        final(store)@.dirs == old(store)@.dirs,
        final(store)@.records == old(store)@.records,
        final(store)@.order == old(store)@.order,
        final(store)@.files == if noted {
            old(store)@.files.insert(name@)
        } else {
            old(store)@.files
        },
{
    if !can_be_stored(name) {
        return false;
    }
    let owned = name.to_owned();
    match KeyStore::find_text(&store.dirs, &owned) {
        Some(at) => {
            assert(texts(store.dirs@)[at as int] == name@);
            return false;
        },
        None => {},
    }
    match KeyStore::find_text(&store.files, &owned) {
        None => {
            let ghost before = texts(store.files@);
            store.files.push(owned);
            assert(texts(store.files@) =~= before.push(name@));
            proof {
                lemma_push_to_set(before, name@);
                assert(store@.files == old(store)@.files.insert(name@));
                assert(store@.dirs == old(store)@.dirs);
                assert(store@.records == old(store)@.records);
            }
        },
        Some(at) => {
            assert(texts(store.files@)[at as int] == name@);
            assert(store@.files.insert(name@) =~= store@.files);
        },
    }
    true
}

/// Notes that the namespace `name` exists, with or without records: a configuration
/// root that is there and holds nothing is a namespace too. A name that could not name
/// a namespace, or that is taken by something that is no namespace, is not noted.
pub fn note_namespace(store: &mut KeyStore, name: &str) -> (noted: bool)
    requires
        old(store).wf(),
    ensures
        final(store).wf(),
        noted == (is_stored_text(name@) && !old(store)@.files.contains(name@)),
        final(store)@.files == old(store)@.files,
        final(store)@.records == old(store)@.records,
        final(store)@.order == old(store)@.order,
        final(store)@.dirs == if noted {
            old(store)@.dirs.insert(name@)
        } else {
            old(store)@.dirs
        },
{
    if !can_be_stored(name) {
        return false;
    }
    let owned = name.to_owned();
    match KeyStore::find_text(&store.files, &owned) {
        Some(at) => {
            assert(texts(store.files@)[at as int] == name@);
            return false;
        },
        None => {},
    }
    match KeyStore::find_text(&store.dirs, &owned) {
        None => {
            let ghost before = texts(store.dirs@);
            store.dirs.push(owned);
            assert(texts(store.dirs@) =~= before.push(name@));
            proof {
                lemma_push_to_set(before, name@);
                assert(store@.dirs == old(store)@.dirs.insert(name@));
                assert(store@.files == old(store)@.files);
                assert(store@.records == old(store)@.records);
            }
        },
        Some(at) => {
            assert(texts(store.dirs@)[at as int] == name@);
            assert(store@.dirs.insert(name@) =~= store@.dirs);
        },
    }
    true
}

/// Writes a record: `content` under the namespace `dir_name` and the name `file_name`,
/// each of them trimmed first. The namespace is made if this is its first record; a
/// record of that name is replaced. The store refuses a namespace, a name or a value
/// that is empty once trimmed, and a namespace whose name is taken by something that
/// is no namespace; it is then left as it was.
pub fn write_file(store: &mut KeyStore, dir_name: &str, file_name: &str, content: &str) -> (written:
    Result<(), StoreError>)
    requires
        old(store).wf(),
    ensures
        final(store).wf(),
        match written {
            Ok(()) => spec_write_file(old(store)@, dir_name@, file_name@, content@) == Ok::<
                StoreView,
                StoreError,
            >(final(store)@),
            Err(e) => spec_write_file(old(store)@, dir_name@, file_name@, content@) == Err::<
                StoreView,
                StoreError,
            >(e) && final(store)@ == old(store)@,
        },
{
    let dir = trim(dir_name);
    let file = trim(file_name);
    let value = trim(content);
    if dir.is_empty() {
        return Err(StoreError::EmptyNamespace);
    }
    if file.is_empty() {
        return Err(StoreError::EmptyName);
    }
    if value.is_empty() {
        return Err(StoreError::EmptyValue);
    }
    let dir = dir.to_owned();
    let file = file.to_owned();
    let value = value.to_owned();
    match KeyStore::find_text(&store.files, &dir) {
        Some(at) => {
            assert(texts(store.files@)[at as int] == dir@);
            return Err(StoreError::NotADirectory);
        },
        None => {},
    }
    proof {
        lemma_trim(dir_name@);
        lemma_trim(file_name@);
        lemma_trim(content@);
    }
    let ghost old_dirs = texts(store.dirs@);
    let ghost old_records = store.records@;
    let ghost key = (dir@, file@);
    match KeyStore::find_text(&store.dirs, &dir) {
        None => {
            store.dirs.push(dir.clone());
            assert(texts(store.dirs@) =~= old_dirs.push(dir@));
            proof {
                lemma_push_to_set(old_dirs, dir@);
            }
        },
        Some(at) => {
            assert(old_dirs[at as int] == dir@);
            assert(old_dirs.to_set().insert(dir@) =~= old_dirs.to_set());
        },
    }
    match store.find_record(&dir, &file) {
        Some(i) => {
            store.records.set(i, Record { namespace: dir, name: file, value });
            assert(keys(store.records@) =~= keys(old_records));
            assert(values(store.records@) =~= values(old_records).update(i as int, value@));
            assert(record_map(store.records@) =~= record_map(old_records).insert(key, value@)) by {
                assert forall|k: (Seq<char>, Seq<char>)|
                    keys(old_records).contains(k) implies #[trigger] record_map(store.records@)[k]
                    == record_map(old_records).insert(key, value@)[k] by {
                    let j = keys(old_records).index_of(k);
                    assert(keys(old_records)[j] == k);
                }
                assert(keys(old_records)[i as int] == key);
            }
        },
        None => {
            store.records.push(Record { namespace: dir, name: file, value });
            assert(keys(store.records@) =~= keys(old_records).push(key));
            assert(values(store.records@) =~= values(old_records).push(value@));
            proof {
                lemma_push_record(old_records, store.records@, key, value@);
            }
        },
    }
    Ok(())
}

/// Reads the record under the namespace `dir_name` and the name `file_name`, each of
/// them trimmed first. Where the namespace or the record is absent the store answers
/// `NotFound`.
pub fn read_file(store: &KeyStore, dir_name: &str, file_name: &str) -> (read: Result<
    String,
    StoreError,
>)
    requires
        store.wf(),
    ensures
        match read {
            Ok(value) => spec_read_file(store@, dir_name@, file_name@) == Ok::<
                Seq<char>,
                StoreError,
            >(value@),
            Err(e) => spec_read_file(store@, dir_name@, file_name@) == Err::<
                Seq<char>,
                StoreError,
            >(e),
        },
{
    let dir = trim(dir_name).to_owned();
    let file = trim(file_name).to_owned();
    match store.find_record(&dir, &file) {
        Some(i) => {
            proof {
                lemma_record_map(store.records@, i as int);
            }
            Ok(store.records[i].value.clone())
        },
        None => Err(StoreError::NotFound),
    }
}

/// What `read_config` returns: the record of that name in the configuration root, or
/// `ConfigMissing`.
pub open spec fn spec_read_config(store: StoreView, file_name: Seq<char>) -> Result<
    Seq<char>,
    ClientErrorView,
> {
    match spec_read_file(store, CONFIG_DIR@, file_name) {
        Ok(value) => Ok(value),
        Err(_) => Err(ClientErrorView::ConfigMissing),
    }
}

/// Reads a record that an operation cannot do without from the configuration root.
/// Where it is absent the operation cannot go on before the setup has run:
/// `ConfigMissing`.
pub fn read_config(store: &KeyStore, file_name: &str) -> (read: Result<String, ClientError>)
    requires
        store.wf(),
    ensures
        match read {
            Ok(value) => spec_read_config(store@, file_name@) == Ok::<
                Seq<char>,
                ClientErrorView,
            >(value@),
            Err(e) => spec_read_config(store@, file_name@) == Err::<Seq<char>, ClientErrorView>(
                e@,
            ),
        },
{
    match read_file(store, CONFIG_DIR, file_name) {
        Ok(value) => Ok(value),
        Err(_) => Err(ClientError::ConfigMissing),
    }
}

/// Removes the namespace `dir_name` with every record under it. The store refuses an
/// empty name, a name that names nothing, and a name that names something else than a
/// namespace; it is then left as it was.
pub fn remove_dir_and_files(store: &mut KeyStore, dir_name: &str) -> (removed: Result<
    (),
    StoreError,
>)
    requires
        old(store).wf(),
    ensures
        final(store).wf(),
        match removed {
            Ok(()) => spec_remove_dir_and_files(old(store)@, dir_name@) == Ok::<
                StoreView,
                StoreError,
            >(final(store)@),
            Err(e) => spec_remove_dir_and_files(old(store)@, dir_name@) == Err::<
                StoreView,
                StoreError,
            >(e) && final(store)@ == old(store)@,
        },
{
    if dir_name.is_empty() {
        return Err(StoreError::EmptyNamespace);
    }
    let dir = dir_name.to_owned();
    let at = match KeyStore::find_text(&store.dirs, &dir) {
        Some(at) => at,
        None => {
            match KeyStore::find_text(&store.files, &dir) {
                Some(at) => {
                    assert(texts(store.files@)[at as int] == dir@);
                    return Err(StoreError::NotADirectory);
                },
                None => {
                    return Err(StoreError::NotFound);
                },
            }
        },
    };
    let ghost old_dirs = texts(store.dirs@);
    let ghost old_records = store.records@;
    assert(old_dirs[at as int] == dir@);
    let mut kept: Vec<Record> = Vec::new();
    let mut i: usize = 0;
    assert(old_records.take(0) =~= Seq::<Record>::empty());
    while i < store.records.len()
        invariant
            i <= store.records@.len(),
            store.records@ == old_records,
            kept@ == outside(old_records.take(i as int), dir@),
        decreases store.records@.len() - i,
    {
        assert(old_records.take(i + 1).drop_last() =~= old_records.take(i as int));
        let record = &store.records[i];
        if record.namespace != dir {
            kept.push(
                Record {
                    namespace: record.namespace.clone(),
                    name: record.name.clone(),
                    value: record.value.clone(),
                },
            );
        }
        i += 1;
    }
    assert(old_records.take(i as int) =~= old_records);
    store.records = kept;
    store.dirs.remove(at);
    proof {
        lemma_outside(old_records, dir@);
        lemma_keys_of_outside(old_records, dir@);
        assert(texts(store.dirs@) =~= old_dirs.remove(at as int));
        lemma_remove_to_set(old_dirs, at as int);
        assert(store@.dirs == old(store)@.dirs.remove(dir@));
        assert(store@.records == old(store)@.records.remove_keys(
            Set::new(|key: (Seq<char>, Seq<char>)| key.0 == dir@),
        ));
        assert(store@.files == old(store)@.files);
        assert(old(store)@.dirs.contains(dir@));
        assert(store@ == without_namespace(old(store)@, dir_name@));
    }
    Ok(())
}

/// Whether the namespace `dir_name` exists.
pub fn is_initialized(store: &KeyStore, dir_name: &str) -> (initialized: bool)
    requires
        store.wf(),
    ensures
        initialized == store@.dirs.contains(dir_name@),
{
    let dir = dir_name.to_owned();
    match KeyStore::find_text(&store.dirs, &dir) {
        Some(at) => {
            assert(texts(store.dirs@)[at as int] == dir_name@);
            true
        },
        None => false,
    }
}

/// The names and values of the records under the namespace `dir_name`, in the order in
/// which the store holds them.
pub fn list_files(store: &KeyStore, dir_name: &str) -> (entries: Vec<(String, String)>)
    requires
        store.wf(),
    ensures
        entries.deep_view() == spec_list_files(store@, dir_name@),
{
    let dir = dir_name.to_owned();
    let mut entries: Vec<(String, String)> = Vec::new();
    let mut i: usize = 0;
    assert(store.records@.take(0) =~= Seq::<Record>::empty());
    assert(entries.deep_view() =~= inside(store.records@.take(0), dir@));
    while i < store.records.len()
        invariant
            i <= store.records@.len(),
            dir@ == dir_name@,
            entries.deep_view() == inside(store.records@.take(i as int), dir@),
        decreases store.records@.len() - i,
    {
        assert(store.records@.take(i + 1).drop_last() =~= store.records@.take(i as int));
        let record = &store.records[i];
        let ghost before = entries.deep_view();
        if record.namespace == dir {
            entries.push((record.name.clone(), record.value.clone()));
            assert(entries.deep_view() =~= before.push((record.name@, record.value@)));
        }
        i += 1;
    }
    proof {
        lemma_entries_of_inside(store.records@, i as int, dir@);
        assert(store.records@.take(i as int) =~= store.records@);
        assert(keys(store.records@).take(i as int) =~= keys(store.records@));
    }
    entries
}

/// What `validate_input_for_space` answers.
pub open spec fn spec_validate_input_for_space(input: Seq<char>) -> Result<(), Seq<char>> {
    if spec_trim(input) == input {
        Ok(())
    } else {
        Err("Input cannot have leading and trailing space"@)
    }
}

/// What `validate_url_address` answers.
pub open spec fn spec_validate_url_address(url: Seq<char>) -> Result<(), Seq<char>> {
    if spec_trim(url) != url {
        Err("URL cannot have leading and trailing space"@)
    } else if !spec_starts_with(url, "http"@) {
        Err("URL should start with http or https prefix"@)
    } else {
        Ok(())
    }
}

/// Accepts a network address that has no whitespace around it and starts with `http`;
/// else says what is wrong with it.
pub fn validate_url_address(url: &str) -> (valid: Result<(), String>)
    ensures
        match valid {
            Ok(()) => spec_validate_url_address(url@) == Ok::<(), Seq<char>>(()),
            Err(message) => spec_validate_url_address(url@) == Err::<(), Seq<char>>(message@),
        },
{
    proof {
        lemma_trim(url@);
    }
    if trim(url).unicode_len() != url.unicode_len() {
        Err("URL cannot have leading and trailing space".to_owned())
    } else if !starts_with(url, "http") {
        Err("URL should start with http or https prefix".to_owned())
    } else {
        Ok(())
    }
}

/// Accepts a text that has no whitespace around it; else says what is wrong with it.
pub fn validate_input_for_space(input: &str) -> (valid: Result<(), String>)
    ensures
        match valid {
            Ok(()) => spec_validate_input_for_space(input@) == Ok::<(), Seq<char>>(()),
            Err(message) => spec_validate_input_for_space(input@) == Err::<(), Seq<char>>(
                message@,
            ),
        },
{
    proof {
        lemma_trim(input@);
    }
    if trim(input).unicode_len() != input.unicode_len() {
        Err("Input cannot have leading and trailing space".to_owned())
    } else {
        Ok(())
    }
}

} // verus!
