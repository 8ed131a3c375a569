use vstd::prelude::*;
use crate::batching::{is_chunking, lemma_chunks_reassemble, pieces};

verus! {

/// Where one item stands in the ingest pipeline.
#[derive(Debug, Clone, Copy, PartialEq, Eq, Structural)]
pub enum Stage {
    /// Hashed; the blob store has not been asked about its key yet.
    Hashed,
    /// Not in the blob store; its pixels are being decoded.
    Decoding,
    /// Decoded; waiting for its embedding vector.
    Embedding,
    /// Has a vector; its bytes are being stored.
    Uploading,
    /// Stored; its point is being upserted.
    Indexing,
    /// Stored and indexed.
    Indexed,
    /// Already in the blob store: a prior run handled it.
    Skipped,
    /// A step failed; the item is dropped from this run.
    Failed,
}

/// What happened to an item since its last step.
#[derive(Debug, Clone, Copy, PartialEq, Eq, Structural)]
pub enum Event {
    /// The blob store answered whether the item's key is present.
    BlobPresence(bool),
    /// Its pixels were decoded.
    Decoded,
    /// The embedding service returned its vector.
    Embedded,
    /// Its bytes were stored.
    Uploaded,
    /// Its point was upserted.
    Upserted,
    /// The step in progress failed.
    Failure,
}

/// The work an item needs next.
#[derive(Debug, Clone, Copy, PartialEq, Eq, Structural)]
pub enum Action {
    /// Ask the blob store whether the item's key exists.
    CheckBlob,
    /// Decode the image.
    Decode,
    /// Submit the decoded image to the embedding service.
    Embed,
    /// Put the item's bytes in the blob store.
    Upload,
    /// Upsert the item's point into the vector index.
    Upsert,
    /// Report the failure with the item's context.
    Report,
    /// Nothing more: the item is finished.
    Done,
}

impl Stage {
    /// The item is finished, one way or another.
    pub open spec fn is_terminal(self) -> bool {
        self is Indexed || self is Skipped || self is Failed
    }
}

/// One step of an item: from its stage and what just happened, its next
/// stage and the work it needs. A present blob ends the item at once; an
/// event that does not answer the stage's work fails it.
pub open spec fn step_spec(stage: Stage, event: Event) -> (Stage, Action) {
    if stage.is_terminal() {
        (stage, Action::Done)
    } else {
        match (stage, event) {
            (Stage::Hashed, Event::BlobPresence(true)) => (Stage::Skipped, Action::Done),
            (Stage::Hashed, Event::BlobPresence(false)) => (Stage::Decoding, Action::Decode),
            (Stage::Decoding, Event::Decoded) => (Stage::Embedding, Action::Embed),
            (Stage::Embedding, Event::Embedded) => (Stage::Uploading, Action::Upload),
            (Stage::Uploading, Event::Uploaded) => (Stage::Indexing, Action::Upsert),
            (Stage::Indexing, Event::Upserted) => (Stage::Indexed, Action::Done),
            _ => (Stage::Failed, Action::Report),
        }
    }
}

/// The stage and first action of a freshly hashed item.
pub fn start() -> (r: (Stage, Action))
    ensures
        r == (Stage::Hashed, Action::CheckBlob),
{
    (Stage::Hashed, Action::CheckBlob)
}

/// Advances an item by one event (see `step_spec`).
pub fn ingest_step(stage: Stage, event: Event) -> (r: (Stage, Action))
    ensures
        r == step_spec(stage, event),
{
    match stage {
        Stage::Indexed | Stage::Skipped | Stage::Failed => (stage, Action::Done),
        Stage::Hashed => match event {
            Event::BlobPresence(true) => (Stage::Skipped, Action::Done),
            Event::BlobPresence(false) => (Stage::Decoding, Action::Decode),
            _ => (Stage::Failed, Action::Report),
        },
        Stage::Decoding => match event {
            Event::Decoded => (Stage::Embedding, Action::Embed),
            _ => (Stage::Failed, Action::Report),
        },
        Stage::Embedding => match event {
            Event::Embedded => (Stage::Uploading, Action::Upload),
            _ => (Stage::Failed, Action::Report),
        },
        Stage::Uploading => match event {
            Event::Uploaded => (Stage::Indexing, Action::Upsert),
            _ => (Stage::Failed, Action::Report),
        },
        Stage::Indexing => match event {
            Event::Upserted => (Stage::Indexed, Action::Done),
            _ => (Stage::Failed, Action::Report),
        },
    }
}

/// The actions an item asks for along a sequence of events.
pub open spec fn run_actions(stage: Stage, events: Seq<Event>) -> Seq<Action>
    decreases events.len(),
{
    if events.len() == 0 {
        seq![]
    } else {
        let (next, action) = step_spec(stage, events[0]);
        seq![action] + run_actions(next, events.subrange(1, events.len() as int))
    }
}

proof fn lemma_terminal_stays_done(stage: Stage, events: Seq<Event>)
    requires
        stage.is_terminal(),
    ensures
        forall|i: int|
            0 <= i < run_actions(stage, events).len() ==> #[trigger] run_actions(stage, events)[i]
                == Action::Done,
        run_actions(stage, events).len() == events.len(),
    decreases events.len(),
{
    if events.len() > 0 {
        lemma_terminal_stays_done(stage, events.subrange(1, events.len() as int));
    }
}

/// Once the blob store reports an item's key present, no later event makes
/// the item ask for decoding, embedding, uploading or indexing.
pub proof fn lemma_dedup_short_circuit(events: Seq<Event>)
    ensures
        forall|i: int|
            0 <= i < run_actions(Stage::Hashed, seq![Event::BlobPresence(true)] + events).len()
                ==> #[trigger] run_actions(Stage::Hashed, seq![Event::BlobPresence(true)] + events)[i]
                == Action::Done,
{
    let all = seq![Event::BlobPresence(true)] + events;
    assert(all.subrange(1, all.len() as int) =~= events);
    lemma_terminal_stays_done(Stage::Skipped, events);
}

/// What an indexed point carries besides its vector.
pub struct PointModel {
    pub hash: Seq<char>,
    pub path: Seq<char>,
    pub url: Seq<char>,
}

/// One file to ingest, as the collaborators see it.
pub struct ItemModel {
    pub key: Seq<char>,
    pub id: Seq<char>,
    pub bytes: Seq<u8>,
    pub point: PointModel,
}

/// The blob store's objects, the vector index's points by id, and how many
/// embedding calls and uploads were made.
pub struct World {
    pub blobs: Map<Seq<char>, Seq<u8>>,
    pub points: Map<Seq<char>, PointModel>,
    pub embed_calls: nat,
    pub uploads: nat,
}

/// How well-behaved collaborators answer an action: the event it produces,
/// if any, and the world after it.
pub open spec fn respond(w: World, item: ItemModel, action: Action) -> (Option<Event>, World) {
    match action {
        Action::CheckBlob => (Some(Event::BlobPresence(w.blobs.dom().contains(item.key))), w),
        Action::Decode => (Some(Event::Decoded), w),
        Action::Embed => (Some(Event::Embedded), World { embed_calls: w.embed_calls + 1, ..w }),
        Action::Upload => (
            Some(Event::Uploaded),
            World { blobs: w.blobs.insert(item.key, item.bytes), uploads: w.uploads + 1, ..w },
        ),
        Action::Upsert => (Some(Event::Upserted), World { points: w.points.insert(item.id, item.point), ..w }),
        Action::Report | Action::Done => (None, w),
    }
}

/// Runs an item through the ingest steps against well-behaved collaborators
/// until it asks for nothing more (or `fuel` steps have been taken).
pub open spec fn drive(stage: Stage, action: Action, w: World, item: ItemModel, fuel: nat) -> World
    decreases fuel,
{
    if fuel == 0 {
        w
    } else {
        let (event, w2) = respond(w, item, action);
        match event {
            None => w2,
            Some(e) => {
                let (s2, a2) = step_spec(stage, e);
                drive(s2, a2, w2, item, (fuel - 1) as nat)
            },
        }
    }
}

/// The world after ingesting one file into `w`.
pub open spec fn ingest_model(w: World, item: ItemModel) -> World {
    drive(Stage::Hashed, Action::CheckBlob, w, item, 6)
}

/// Ingesting a file stores its bytes under its key and indexes its point
/// under its id when the key was absent, and changes nothing (no embedding
/// call, no upload) when it was present. So a second ingest of the same file
/// finds its key and leaves the world as the first one left it: one blob
/// object and one point for the content.
pub proof fn lemma_ingest_idempotent(w: World, item: ItemModel)
    ensures
        w.blobs.dom().contains(item.key) ==> ingest_model(w, item) == w,
        !w.blobs.dom().contains(item.key) ==> ingest_model(w, item) == (World {
            blobs: w.blobs.insert(item.key, item.bytes),
            points: w.points.insert(item.id, item.point),
            embed_calls: w.embed_calls + 1,
            uploads: w.uploads + 1,
        }),
        ingest_model(ingest_model(w, item), item) == ingest_model(w, item),
        ingest_model(w, item).blobs.dom() == w.blobs.dom().insert(item.key),
{
    reveal_with_fuel(drive, 7);
    let once = ingest_model(w, item);
    assert(once.blobs.dom().contains(item.key));
    assert(ingest_model(once, item) == once);
    if w.blobs.dom().contains(item.key) {
        assert(w.blobs.dom().insert(item.key) =~= w.blobs.dom());
    }
}

/// The world after ingesting the files of `items` in order.
pub open spec fn ingest_all(w: World, items: Seq<ItemModel>) -> World
    decreases items.len(),
{
    if items.len() == 0 {
        w
    } else {
        ingest_model(ingest_all(w, items.drop_last()), items.last())
    }
}

/// The blob keys of some files, in order.
pub open spec fn keys_of(items: Seq<ItemModel>) -> Seq<Seq<char>> {
    items.map_values(|it: ItemModel| it.key)
}

/// The point ids of some files, in order.
pub open spec fn ids_of(items: Seq<ItemModel>) -> Seq<Seq<char>> {
    items.map_values(|it: ItemModel| it.id)
}

/// Ingesting files with pairwise distinct blob keys into an empty world
/// stores exactly one blob object per file, indexes a point under each
/// file's id and nothing else, and makes one embedding call and one upload
/// per file.
pub proof fn lemma_ingest_distinct_files(w: World, items: Seq<ItemModel>)
    requires
        w.blobs.dom() == Set::<Seq<char>>::empty(),
        w.points.dom() == Set::<Seq<char>>::empty(),
        keys_of(items).no_duplicates(),
    ensures
        ingest_all(w, items).blobs.dom() == keys_of(items).to_set(),
        ingest_all(w, items).blobs.dom().len() == items.len(),
        ingest_all(w, items).points.dom() == ids_of(items).to_set(),
        ingest_all(w, items).embed_calls == w.embed_calls + items.len(),
        ingest_all(w, items).uploads == w.uploads + items.len(),
    decreases items.len(),
{
    if items.len() == 0 {
        assert(keys_of(items).to_set() =~= Set::<Seq<char>>::empty());
        assert(ids_of(items).to_set() =~= Set::<Seq<char>>::empty());
    } else {
        let rest = items.drop_last();
        let last = items.last();
        assert(keys_of(rest) =~= keys_of(items).drop_last());
        assert(ids_of(rest) =~= ids_of(items).drop_last());
        lemma_ingest_distinct_files(w, rest);
        let prev = ingest_all(w, rest);
        assert(!prev.blobs.dom().contains(last.key)) by {
            if prev.blobs.dom().contains(last.key) {
                let i = choose|i: int| 0 <= i < keys_of(rest).len() && keys_of(rest)[i] == last.key;
                assert(keys_of(items)[i] == keys_of(items)[items.len() - 1]);
            }
        }
        lemma_ingest_idempotent(prev, last);
        assert(keys_of(items) =~= keys_of(rest).push(last.key));
        assert(ids_of(items) =~= ids_of(rest).push(last.id));
        assert(keys_of(items).to_set() =~= keys_of(rest).to_set().insert(last.key)) by {
            Seq::lemma_to_set_insert_commutes(keys_of(rest), last.key);
            assert(keys_of(rest).push(last.key) =~= keys_of(rest) + seq![last.key]);
        }
        assert(ids_of(items).to_set() =~= ids_of(rest).to_set().insert(last.id)) by {
            Seq::lemma_to_set_insert_commutes(ids_of(rest), last.id);
            assert(ids_of(rest).push(last.id) =~= ids_of(rest) + seq![last.id]);
        }
    }
    keys_of(items).unique_seq_to_set();
}

/// Why a batch of vectors cannot be matched to its items.
#[derive(Debug, Clone, Copy, PartialEq, Eq, Structural)]
pub enum BatchError {
    /// The embedding service returned `got` vectors for `expected` images.
    LengthMismatch { expected: usize, got: usize },
}

/// Items paired with the values at the same positions.
pub open spec fn zip_spec<T, V>(a: Seq<T>, b: Seq<V>) -> Seq<(T, V)> {
    Seq::new(a.len(), |i: int| (a[i], b[i]))
}

/// Embedding a batch in sub-batches cut by a chunking and pairing each
/// sub-batch's vectors with its own items yields, in order, exactly the
/// pairing of the whole batch: sub-batching never hands an item another
/// item's vector.
pub proof fn lemma_sub_batches_keep_alignment<T, V>(
    items: Seq<T>,
    vectors: Seq<V>,
    r: Seq<(usize, usize)>,
    width: nat,
)
    requires
        items.len() == vectors.len(),
        width > 0,
        is_chunking(r, items.len(), width),
    ensures
        Seq::new(
            r.len(),
            |j: int|
                zip_spec(
                    items.subrange(r[j].0 as int, r[j].1 as int),
                    vectors.subrange(r[j].0 as int, r[j].1 as int),
                ),
        ).flatten() == zip_spec(items, vectors),
{
    let whole = zip_spec(items, vectors);
    let per_batch = Seq::new(
        r.len(),
        |j: int|
            zip_spec(
                items.subrange(r[j].0 as int, r[j].1 as int),
                vectors.subrange(r[j].0 as int, r[j].1 as int),
            ),
    );
    assert forall|j: int| 0 <= j < r.len() implies #[trigger] per_batch[j] == pieces(whole, r)[j] by {
        assert(r[j].0 <= r[j].1 <= items.len()) by {
            crate::batching::lemma_chunk_in_bounds(r, items.len(), width, j);
        }
        assert(per_batch[j] =~= whole.subrange(r[j].0 as int, r[j].1 as int));
    }
    assert(per_batch =~= pieces(whole, r));
    lemma_chunks_reassemble(whole, r, width);
}

/// Pairs each item of a batch with the vector at the same position, or fails
/// the whole batch when the counts differ, so that no item is ever given
/// another item's vector.
pub fn pair_with_vectors<T, V>(items: Vec<T>, vectors: Vec<V>) -> (r: Result<Vec<(T, V)>, BatchError>)
    ensures
        match r {
            Ok(pairs) => items@.len() == vectors@.len() && pairs@ == zip_spec(items@, vectors@),
            Err(e) => items@.len() != vectors@.len() && e == BatchError::LengthMismatch {
                expected: items@.len() as usize,
                got: vectors@.len() as usize,
            },
        },
{
    if items.len() != vectors.len() {
        return Err(BatchError::LengthMismatch { expected: items.len(), got: vectors.len() });
    }
    let ghost items0 = items@;
    let ghost vectors0 = vectors@;
    let mut items = items;
    let mut vectors = vectors;
    let mut pairs: Vec<(T, V)> = Vec::new();
    while items.len() > 0
        invariant
            items@.len() == vectors@.len(),
            items@ == items0.subrange(0, items@.len() as int),
            vectors@ == vectors0.subrange(0, vectors@.len() as int),
            items0.len() == vectors0.len(),
            items@.len() + pairs@.len() == items0.len(),
            forall|i: int|
                0 <= i < pairs@.len() ==> #[trigger] pairs@[i] == (
                    items0[items@.len() + i],
                    vectors0[items@.len() + i],
                ),
        decreases items@.len(),
    {
        let t = items.pop().unwrap();
        let v = vectors.pop().unwrap();
        pairs.insert(0, (t, v));
    }
    assert(pairs@ =~= zip_spec(items0, vectors0));
    Ok(pairs)
}

/// What to do about the target collection before ingesting.
#[derive(Debug, Clone, Copy, PartialEq, Eq, Structural)]
pub enum CollectionPlan {
    /// Create it for vectors of this many dimensions, with cosine distance.
    Create { dimension: u64 },
    /// It exists with the model's dimension: use it as it is.
    UseExisting,
}

/// A configuration error that stops a run before any item is processed.
#[derive(Debug, Clone, Copy, PartialEq, Eq, Structural)]
pub enum StartupError {
    /// The collection exists with another dimension than the model's output.
    DimensionMismatch { expected: u64, found: u64 },
}

/// Decides the collection bootstrap from the dimension of the existing
/// collection, if there is one, and the embedding service's output size.
pub fn plan_collection(existing_dimension: Option<u64>, output_size: u64) -> (r: Result<
    CollectionPlan,
    StartupError,
>)
    ensures
        existing_dimension is None ==> r == Ok::<CollectionPlan, StartupError>(
            CollectionPlan::Create { dimension: output_size },
        ),
        existing_dimension == Some(output_size) ==> r == Ok::<CollectionPlan, StartupError>(
            CollectionPlan::UseExisting,
        ),
        forall|d: u64|
            existing_dimension == Some(d) && d != output_size ==> r == Err::<
                CollectionPlan,
                StartupError,
            >(StartupError::DimensionMismatch { expected: output_size, found: d }),
{
    match existing_dimension {
        None => Ok(CollectionPlan::Create { dimension: output_size }),
        Some(d) => if d == output_size {
            Ok(CollectionPlan::UseExisting)
        } else {
            Err(StartupError::DimensionMismatch { expected: output_size, found: d })
        },
    }
}

} // verus!
