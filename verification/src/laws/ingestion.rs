//! Ingestion, and the retrieval of what was ingested.
use crate::errors::Failure;
use crate::ident::{
    big_endian, big_endian_is_one_to_one, hyphenated, hyphenated_is_plain, uuid_parsed,
};
use crate::model::{
    active_with_id, any, first, first_stays_first, first_the_added, keyed, only,
    only_but_the_added, only_the_added, plain_name, read_back, with_key, with_post_id,
    with_session_token, DocumentRecord, PostRecord, SessionRecord, Stores,
};
use crate::route::items::{metadata_of, FileState, ItemStateView};
use crate::route::upload::{
    document_for, item_moves, item_start, stored_name, upload_moves, AuthorizationView,
    ProgressView, UploadStateView,
};
use crate::runs::{
    file_conduct, ingests, item_conduct, may_run, retrieves, run_ends, run_goes_on, serves,
    upload_conduct,
};
use crate::store::{ActionView, BodyView, EventView, QueryView};
use crate::text::{dotless, escapes, extension_is_dotless, extension_of};
use crate::types::{ItemResponseView, PostView, ResponseFileView, UploadFromView};
use crate::utility::ValidityState;
use vstd::prelude::*;

verus! {

/// A batch with another number of metadata entries than of files is turned
/// down, and nothing is changed: no file is written and no row inserted.
pub proof fn mismatched_batch_changes_nothing(
    form: UploadFromView,
    authorization: AuthorizationView,
    uploads: Seq<Seq<u8>>,
    stores: Stores,
    outcome: ActionView,
    after: Stores,
)
    requires
        form.file.len() != form.metadata.len(),
        ingests(form, authorization, uploads, stores, outcome, after),
    ensures
        outcome == ActionView::Reject(Failure::CountMismatch),
        after == stores,
{
    reveal_with_fuel(may_run, 2);
}

/// Whether `outcome` turns a request down for what it is: for its counts or
/// for its bearer credential.
pub open spec fn turns_the_request_down(outcome: ActionView) -> bool {
    outcome matches ActionView::Reject(failure) && (failure == Failure::CountMismatch || failure
        == Failure::AuthorizationMissing || failure == Failure::AuthorizationMalformed
        || failure is Denied)
}

/// Whether an ingestion has the bearer credential behind it.
pub open spec fn admitted(state: UploadStateView) -> bool {
    !(state is Start) && !(state is Authorizing)
}

/// An ingestion that has the bearer credential behind it does not turn the
/// request down any more.
proof fn admitted_run_goes_through(
    form: UploadFromView,
    authorization: AuthorizationView,
    uploads: Seq<Seq<u8>>,
    state: UploadStateView,
    event: EventView,
    stores: Stores,
    fuel: nat,
    outcome: ActionView,
    after: Stores,
)
    requires
        admitted(state),
        may_run(
            upload_conduct(form, authorization),
            state,
            event,
            stores,
            uploads,
            fuel,
            outcome,
            after,
        ),
    ensures
        !turns_the_request_down(outcome),
    decreases fuel,
{
    let moves = upload_conduct(form, authorization);
    let (next, action) = choose|next: UploadStateView, action: ActionView| #[trigger]
        moves(state, event, next, action) && match action {
            ActionView::Ask(query) => fuel > 0 && may_run(
                moves,
                next,
                stores.serve(query, uploads).1,
                stores.serve(query, uploads).0,
                uploads,
                (fuel - 1) as nat,
                outcome,
                after,
            ),
            _ => outcome == action && after == stores,
        };
    match action {
        ActionView::Ask(query) => {
            admitted_run_goes_through(
                form,
                authorization,
                uploads,
                next,
                stores.serve(query, uploads).1,
                stores.serve(query, uploads).0,
                (fuel - 1) as nat,
                outcome,
                after,
            );
        },
        _ => {},
    }
}

/// An ingestion that has not the bearer credential behind it yet has changed
/// nothing, and changes nothing if it turns the request down.
proof fn request_is_turned_down_early(
    form: UploadFromView,
    authorization: AuthorizationView,
    uploads: Seq<Seq<u8>>,
    state: UploadStateView,
    event: EventView,
    stores: Stores,
    fuel: nat,
    outcome: ActionView,
    after: Stores,
)
    requires
        !admitted(state),
        turns_the_request_down(outcome),
        may_run(
            upload_conduct(form, authorization),
            state,
            event,
            stores,
            uploads,
            fuel,
            outcome,
            after,
        ),
    ensures
        after == stores,
    decreases fuel,
{
    let moves = upload_conduct(form, authorization);
    let (next, action) = choose|next: UploadStateView, action: ActionView| #[trigger]
        moves(state, event, next, action) && match action {
            ActionView::Ask(query) => fuel > 0 && may_run(
                moves,
                next,
                stores.serve(query, uploads).1,
                stores.serve(query, uploads).0,
                uploads,
                (fuel - 1) as nat,
                outcome,
                after,
            ),
            _ => outcome == action && after == stores,
        };
    match action {
        ActionView::Ask(query) => {
            let (served, answer) = stores.serve(query, uploads);
            if admitted(next) {
                admitted_run_goes_through(
                    form,
                    authorization,
                    uploads,
                    next,
                    answer,
                    served,
                    (fuel - 1) as nat,
                    outcome,
                    after,
                );
            } else {
                request_is_turned_down_early(
                    form,
                    authorization,
                    uploads,
                    next,
                    answer,
                    served,
                    (fuel - 1) as nat,
                    outcome,
                    after,
                );
            }
        },
        _ => {},
    }
}

/// A request that is turned down for what it is has no effect: where an
/// ingestion ends because of the counts of the batch or because of the bearer
/// credential, no file is written and no row or document inserted.
pub proof fn request_turned_down_changes_nothing(
    form: UploadFromView,
    authorization: AuthorizationView,
    uploads: Seq<Seq<u8>>,
    stores: Stores,
    outcome: ActionView,
    after: Stores,
)
    requires
        turns_the_request_down(outcome),
        ingests(form, authorization, uploads, stores, outcome, after),
    ensures
        after == stores,
{
    request_is_turned_down_early(
        form,
        authorization,
        uploads,
        UploadStateView::Start,
        EventView::Start,
        stores,
        6 + 3 * form.file.len(),
        outcome,
        after,
    );
}

/// An ingestion can succeed: for a batch of one file that has a content type
/// and a name with an extension, under a session token that one session that
/// is not revoked holds, of a user whose account is active, with a content id
/// that is not taken and a stored name that names a file right in the storage
/// root, the ingestion may end with the stored name; and the file, the post
/// row and the document are there.
pub proof fn ingestion_can_succeed(
    form: UploadFromView,
    credential: Seq<char>,
    uploads: Seq<Seq<u8>>,
    stores: Stores,
    session: SessionRecord,
    post_id: u128,
)
    requires
        form.file.len() == 1,
        form.metadata.len() == 1,
        uploads.len() == 1,
        form.file[0].content_type is Some,
        form.file[0].file_name is Some,
        extension_of(form.file[0].file_name->0) is Some,
        plain_name(stored_name(post_id, extension_of(form.file[0].file_name->0)->0)),
        crate::ident::names(hyphenated(post_id), post_id),
        only(stores.sessions, with_session_token(credential)) == Some(session),
        only(stores.users, active_with_id(session.row.user_id)) is Some,
        !any(stores.posts, with_post_id(post_id)),
    ensures
        ({
            let name = stored_name(post_id, extension_of(form.file[0].file_name->0)->0);
            let post = PostRecord {
                post_id,
                user_id: session.row.user_id,
                filename: name,
                content_type: form.file[0].content_type->0,
            };
            ingests(
                form,
                AuthorizationView::Bearer(credential),
                uploads,
                stores,
                ActionView::Reply(BodyView::Files(ResponseFileView { file: seq![name] })),
                Stores {
                    files: stores.files.insert(name, uploads[0]),
                    posts: stores.posts.push(post),
                    documents: stores.documents.push(
                        DocumentRecord {
                            key: big_endian(post_id),
                            document: document_for(form, 0, post_id, session.row.user_id),
                        },
                    ),
                    ..stores
                },
            )
        }),
{
    let moves = upload_conduct(form, AuthorizationView::Bearer(credential));
    let user_id = session.row.user_id;
    let name = stored_name(post_id, extension_of(form.file[0].file_name->0)->0);
    let content_type = form.file[0].content_type->0;
    let post = PostRecord { post_id, user_id, filename: name, content_type };
    let key = big_endian(post_id);
    let document = document_for(form, 0, post_id, user_id);
    let written = Stores { files: stores.files.insert(name, uploads[0]), ..stores };
    let rowed = Stores { posts: stores.posts.push(post), ..written };
    let after = Stores {
        documents: stores.documents.push(DocumentRecord { key, document }),
        ..rowed
    };
    let outcome = ActionView::Reply(BodyView::Files(ResponseFileView { file: seq![name] }));
    let p = ProgressView {
        user_id,
        index: 0,
        post_id,
        new_filename: name,
        content_type,
        stored: Seq::empty(),
    };
    let persist = QueryView::PersistFile { index: 0, name };
    let insert_post = QueryView::InsertPost { post_id, user_id, filename: name, content_type };
    let insert_document = QueryView::InsertDocument { key, document };
    let find_session = QueryView::FindSession { session_token: credential };
    let find_active = QueryView::FindActiveUser { user_id };


    assert(item_start(form, user_id, 1, seq![name], post_id) == (UploadStateView::Finished, outcome));
    run_ends(
        moves,
        UploadStateView::InsertingDocument(p),
        EventView::Done,
        after,
        uploads,
        0,
        UploadStateView::Finished,
        outcome,
    );
    run_goes_on(
        moves,
        UploadStateView::InsertingPost(p),
        EventView::Done,
        rowed,
        uploads,
        1,
        UploadStateView::InsertingDocument(p),
        insert_document,
        outcome,
        after,
    );
    run_goes_on(
        moves,
        UploadStateView::Persisting(p),
        EventView::Done,
        written,
        uploads,
        2,
        UploadStateView::InsertingPost(p),
        insert_post,
        outcome,
        after,
    );
    assert(item_start(form, user_id, 0, Seq::empty(), post_id) == (
        UploadStateView::Persisting(p),
        ActionView::Ask(persist),
    ));
    run_goes_on(
        moves,
        UploadStateView::Preparing { user_id },
        EventView::Done,
        stores,
        uploads,
        3,
        UploadStateView::Persisting(p),
        persist,
        outcome,
        after,
    );
    run_goes_on(
        moves,
        UploadStateView::Connecting { user_id },
        EventView::Connected(true),
        stores,
        uploads,
        4,
        UploadStateView::Preparing { user_id },
        QueryView::PrepareInsertPost,
        outcome,
        after,
    );
    run_goes_on(
        moves,
        UploadStateView::ConnectingDocuments { user_id },
        EventView::Connected(true),
        stores,
        uploads,
        5,
        UploadStateView::Connecting { user_id },
        QueryView::Connect,
        outcome,
        after,
    );
    run_goes_on(
        moves,
        UploadStateView::Authorizing(ValidityState::Checking(user_id)),
        EventView::Exists(true),
        stores,
        uploads,
        6,
        UploadStateView::ConnectingDocuments { user_id },
        QueryView::ConnectDocuments,
        outcome,
        after,
    );
    run_goes_on(
        moves,
        UploadStateView::Authorizing(ValidityState::Finding),
        EventView::UserId(user_id),
        stores,
        uploads,
        7,
        UploadStateView::Authorizing(ValidityState::Checking(user_id)),
        find_active,
        outcome,
        after,
    );
    run_goes_on(
        moves,
        UploadStateView::Authorizing(ValidityState::Connecting),
        EventView::Connected(true),
        stores,
        uploads,
        8,
        UploadStateView::Authorizing(ValidityState::Finding),
        find_session,
        outcome,
        after,
    );
    run_goes_on(
        moves,
        UploadStateView::Start,
        EventView::Start,
        stores,
        uploads,
        9,
        UploadStateView::Authorizing(ValidityState::Connecting),
        QueryView::Connect,
        outcome,
        after,
    );
}

/// A stored name is acceptable as a path as it is written: it begins with a
/// hex digit, and its one dot stands alone.
pub proof fn stored_name_does_not_escape(post_id: u128, extension: Seq<char>)
    requires
        dotless(extension),
        extension.len() > 0,
    ensures
        !escapes(stored_name(post_id, extension)),
        stored_name(post_id, extension).subrange(0, 36) == hyphenated(post_id),
{
    let name = stored_name(post_id, extension);
    hyphenated_is_plain(post_id);
}

/// A stored item is retrieved: where one post row has the content id and a
/// document holds its bytes, the retrieval of the content id, written
/// hyphenated, ends with the stored file name of the row and with the
/// metadata of the first such document.
pub proof fn stored_item_is_retrieved(
    stores: Stores,
    post_id: u128,
    row: PostRecord,
    document: DocumentRecord,
)
    requires
        crate::ident::names(hyphenated(post_id), post_id),
        only(stores.posts, with_post_id(post_id)) == Some(row),
        first(stores.documents, keyed(big_endian(post_id))) == Some(document),
    ensures
        retrieves(
            hyphenated(post_id),
            stores,
            ActionView::Reply(
                BodyView::Item(
                    ItemResponseView {
                        image: row.filename,
                        metadata: metadata_of(read_back(document.document)),
                    },
                ),
            ),
        ),
{
    let item_id = hyphenated(post_id);
    let moves = item_conduct(item_id);
    let none = Seq::<Seq<u8>>::empty();
    let outcome = ActionView::Reply(
        BodyView::Item(
            ItemResponseView {
                image: row.filename,
                metadata: metadata_of(read_back(document.document)),
            },
        ),
    );
    let find_post = QueryView::FindPost { post_id };
    let find_document = QueryView::FindDocument { key: big_endian(post_id) };
    let found = EventView::PostRow {
        post_id,
        filename: row.filename,
        content_type: row.content_type,
    };
    let read = EventView::Document(Some(read_back(document.document)));
    run_ends(
        moves,
        ItemStateView::FindingDocument { filename: row.filename },
        read,
        stores,
        none,
        0,
        ItemStateView::Finished,
        outcome,
    );
    run_goes_on(
        moves,
        ItemStateView::FindingPost(post_id),
        found,
        stores,
        none,
        1,
        ItemStateView::FindingDocument { filename: row.filename },
        find_document,
        outcome,
        stores,
    );
    run_goes_on(
        moves,
        ItemStateView::Connecting(post_id),
        EventView::Connected(true),
        stores,
        none,
        2,
        ItemStateView::FindingPost(post_id),
        find_post,
        outcome,
        stores,
    );
    run_goes_on(
        moves,
        ItemStateView::Start,
        EventView::Start,
        stores,
        none,
        3,
        ItemStateView::Connecting(post_id),
        QueryView::Connect,
        outcome,
        stores,
    );
}

/// A stored file is served: a file of the storage root is served under its
/// name, from the storage root, where the name is acceptable as a path.
pub proof fn stored_file_is_served(stores: Stores, name: Seq<char>)
    requires
        !escapes(name),
        stores.files.contains_key(name),
    ensures
        serves(
            name,
            stores,
            ActionView::Reply(BodyView::File { path: stores.root.push(name) }),
        ),
{
    let moves = file_conduct(name);
    let none = Seq::<Seq<u8>>::empty();
    let path = stores.root.push(name);
    let outcome = ActionView::Reply(BodyView::File { path });
    let resolve = QueryView::Resolve { name };
    let resolved = EventView::Resolved { path: Some(path), base: Some(stores.root) };
    run_ends(moves, FileState::Resolving, resolved, stores, none, 0, FileState::Finished, outcome);
    run_goes_on(
        moves,
        FileState::Start,
        EventView::Start,
        stores,
        none,
        1,
        FileState::Resolving,
        resolve,
        outcome,
        stores,
    );
}

/// Whether item number `k` of a batch stands in the stores under the stored
/// name `name` as it was submitted: the name begins with a content id, one
/// post row has that id and this name, the first document that holds the
/// bytes of the id holds the metadata of the item, and the file of this name
/// holds the bytes of the item.
pub open spec fn stands(
    form: UploadFromView,
    uploads: Seq<Seq<u8>>,
    stores: Stores,
    name: Seq<char>,
    k: int,
) -> bool {
    &&& name.len() > 36
    &&& !escapes(name)
    &&& uuid_parsed(name.subrange(0, 36)) matches Some(post_id)
    &&& name.subrange(0, 36) == hyphenated(post_id)
    &&& only(stores.posts, with_post_id(post_id)) matches Some(row)
    &&& row.filename == name
    &&& first(stores.documents, keyed(big_endian(post_id))) matches Some(document)
    &&& metadata_of(read_back(document.document)) == form.metadata[k]
    &&& stores.files.contains_key(name)
    &&& stores.files[name] == uploads[k]
}

/// An item that stands in the stores is read back: the retrieval of its
/// content id gives its stored name and its metadata, and its stored name is
/// served from the storage root.
pub proof fn standing_item_is_read_back(
    form: UploadFromView,
    uploads: Seq<Seq<u8>>,
    stores: Stores,
    name: Seq<char>,
    k: int,
)
    requires
        stands(form, uploads, stores, name, k),
    ensures
        retrieves(
            name.subrange(0, 36),
            stores,
            ActionView::Reply(
                BodyView::Item(ItemResponseView { image: name, metadata: form.metadata[k] }),
            ),
        ),
        serves(name, stores, ActionView::Reply(BodyView::File { path: stores.root.push(name) })),
        stores.files[name] == uploads[k],
{
    let post_id = uuid_parsed(name.subrange(0, 36))->0;
    let row = only(stores.posts, with_post_id(post_id))->0;
    let document = first(stores.documents, keyed(big_endian(post_id)))->0;
    stored_item_is_retrieved(stores, post_id, row, document);
    stored_file_is_served(stores, name);
}

/// Whether the items before number `index` of a batch stand in the stores
/// under the stored names `stored`.
pub open spec fn stored_so_far(
    form: UploadFromView,
    uploads: Seq<Seq<u8>>,
    stores: Stores,
    stored: Seq<Seq<char>>,
    index: int,
) -> bool {
    &&& stored.len() == index
    &&& index <= form.file.len()
    &&& stores.paired()
    &&& forall|j: int| 0 <= j < index ==> stands(form, uploads, stores, #[trigger] stored[j], j)
}

/// The stores once the file, the post row and the document of an item are
/// added to them.
pub open spec fn with_item(
    stores: Stores,
    post: PostRecord,
    document: PostView,
    bytes: Seq<u8>,
) -> Stores {
    Stores {
        files: stores.files.insert(post.filename, bytes),
        posts: stores.posts.push(post),
        documents: stores.documents.push(
            DocumentRecord { key: big_endian(post.post_id), document },
        ),
        ..stores
    }
}

/// Where the items before number `index` stand and item number `index` is
/// added under a content id that is not taken, the items up to it stand.
proof fn one_more_item_stands(
    form: UploadFromView,
    uploads: Seq<Seq<u8>>,
    stores: Stores,
    stored: Seq<Seq<char>>,
    index: int,
    post: PostRecord,
)
    requires
        form.file.len() == form.metadata.len(),
        stored_so_far(form, uploads, stores, stored, index),
        index < form.file.len(),
        index < uploads.len(),
        form.file[index].file_name is Some,
        extension_of(form.file[index].file_name->0) is Some,
        post.filename == stored_name(post.post_id, extension_of(form.file[index].file_name->0)->0),
        crate::ident::names(hyphenated(post.post_id), post.post_id),
        !any(stores.posts, with_post_id(post.post_id)),
    ensures
        stored_so_far(
            form,
            uploads,
            with_item(
                stores,
                post,
                document_for(form, index, post.post_id, post.user_id),
                uploads[index],
            ),
            stored.push(post.filename),
            index + 1,
        ),
{
    let post_id = post.post_id;
    let name = post.filename;
    let key = big_endian(post_id);
    let document = DocumentRecord {
        key,
        document: document_for(form, index, post_id, post.user_id),
    };
    let last = with_item(stores, post, document.document, uploads[index]);
    let further = stored.push(name);

    // The new item stands.
    extension_is_dotless(form.file[index].file_name->0);
    stored_name_does_not_escape(post_id, extension_of(form.file[index].file_name->0)->0);
    only_the_added(stores.posts, with_post_id(post_id), post);
    if any(stores.documents, keyed(key)) {
        let j = choose|j: int|
            0 <= j < stores.posts.len() && with_key(key)(#[trigger] stores.posts[j]);
        big_endian_is_one_to_one(stores.posts[j].post_id, post_id);
    }
    first_the_added(stores.documents, keyed(key), document);

    // The items before it stand as they did.
    assert forall|j: int| 0 <= j < index implies stands(
        form,
        uploads,
        last,
        #[trigger] further[j],
        j,
    ) by {
        let earlier = stored[j];
        let id = uuid_parsed(earlier.subrange(0, 36))->0;
        only_but_the_added(stores.posts, with_post_id(id), post);
        first_stays_first(stores.documents, keyed(big_endian(id)), document);
    }

    // Every document has its post row.
    assert forall|i: int| 0 <= i < last.documents.len() implies any(
        last.posts,
        with_key((#[trigger] last.documents[i]).key),
    ) by {
        if i < stores.documents.len() {
            any_of_more(stores.posts, with_key(stores.documents[i].key), post);
        } else {
        }
    }
}

/// Whether an ingestion that stands at `next` with `action` to perform may
/// end with `outcome` and leave `after`.
pub open spec fn goes_on(
    form: UploadFromView,
    authorization: AuthorizationView,
    uploads: Seq<Seq<u8>>,
    next: UploadStateView,
    action: ActionView,
    stores: Stores,
    fuel: nat,
    outcome: ActionView,
    after: Stores,
) -> bool {
    match action {
        ActionView::Ask(query) => fuel > 0 && may_run(
            upload_conduct(form, authorization),
            next,
            stores.serve(query, uploads).1,
            stores.serve(query, uploads).0,
            uploads,
            (fuel - 1) as nat,
            outcome,
            after,
        ),
        _ => outcome == action && after == stores,
    }
}

/// What an item that starts has done once the ingestion has succeeded: its
/// file, its post row and its document are added, under a content id that was
/// not taken, and the ingestion has gone on from the start of the next item.
proof fn item_goes_through(
    form: UploadFromView,
    authorization: AuthorizationView,
    uploads: Seq<Seq<u8>>,
    user_id: u128,
    index: usize,
    stored: Seq<Seq<char>>,
    stores: Stores,
    fuel: nat,
    next: UploadStateView,
    action: ActionView,
    names: Seq<Seq<char>>,
    after: Stores,
) -> (r: (PostRecord, UploadStateView, ActionView))
    requires
        form.file.len() == form.metadata.len(),
        form.file.len() <= usize::MAX,
        index < form.file.len(),
        item_moves(form, user_id, index, stored, next, action),
        goes_on(
            form,
            authorization,
            uploads,
            next,
            action,
            stores,
            fuel,
            ActionView::Reply(BodyView::Files(ResponseFileView { file: names })),
            after,
        ),
    ensures
        fuel >= 3,
        index < uploads.len(),
        form.file[index as int].file_name is Some,
        extension_of(form.file[index as int].file_name->0) is Some,
        r.0.filename == stored_name(
            r.0.post_id,
            extension_of(form.file[index as int].file_name->0)->0,
        ),
        r.0.user_id == user_id,
        crate::ident::names(hyphenated(r.0.post_id), r.0.post_id),
        !any(stores.posts, with_post_id(r.0.post_id)),
        item_moves(form, user_id, (index + 1) as usize, stored.push(r.0.filename), r.1, r.2),
        goes_on(
            form,
            authorization,
            uploads,
            r.1,
            r.2,
            with_item(
                stores,
                r.0,
                document_for(form, index as int, r.0.post_id, user_id),
                uploads[index as int],
            ),
            (fuel - 3) as nat,
            ActionView::Reply(BodyView::Files(ResponseFileView { file: names })),
            after,
        ),
{
    let moves = upload_conduct(form, authorization);
    let outcome = ActionView::Reply(BodyView::Files(ResponseFileView { file: names }));
    let post_id = choose|post_id: u128|
        (next, action) == #[trigger] item_start(form, user_id, index, stored, post_id) && (action is Ask
            ==> crate::ident::names(hyphenated(post_id), post_id));
    let name = stored_name(post_id, extension_of(form.file[index as int].file_name->0)->0);
    let content_type = form.file[index as int].content_type->0;
    let post = PostRecord { post_id, user_id, filename: name, content_type };
    let p = ProgressView { user_id, index, post_id, new_filename: name, content_type, stored };
    let document = document_for(form, index as int, post_id, user_id);
    let persist = QueryView::PersistFile { index, name };
    let insert_post = QueryView::InsertPost { post_id, user_id, filename: name, content_type };
    let insert_document = QueryView::InsertDocument { key: big_endian(post_id), document };
    let written = stores.serve(persist, uploads).0;
    let rowed = written.serve(insert_post, uploads).0;
    let (last, e3) = rowed.serve(insert_document, uploads);
    reveal_with_fuel(may_run, 4);
    let (n4, a4) = choose|n4: UploadStateView, a4: ActionView| #[trigger]
        moves(UploadStateView::InsertingDocument(p), e3, n4, a4) && match a4 {
            ActionView::Ask(query) => (fuel - 3) as nat > 0 && may_run(
                moves,
                n4,
                last.serve(query, uploads).1,
                last.serve(query, uploads).0,
                uploads,
                (fuel - 4) as nat,
                outcome,
                after,
            ),
            _ => outcome == a4 && after == last,
        };
    (post, n4, a4)
}

/// From the start of item number `index` on, an ingestion that succeeds
/// leaves every item of the batch standing in the stores.
proof fn items_stand_from(
    form: UploadFromView,
    authorization: AuthorizationView,
    uploads: Seq<Seq<u8>>,
    user_id: u128,
    index: usize,
    stored: Seq<Seq<char>>,
    stores: Stores,
    fuel: nat,
    next: UploadStateView,
    action: ActionView,
    names: Seq<Seq<char>>,
    after: Stores,
)
    requires
        form.file.len() == form.metadata.len(),
        form.file.len() <= usize::MAX,
        stored_so_far(form, uploads, stores, stored, index as int),
        item_moves(form, user_id, index, stored, next, action),
        goes_on(
            form,
            authorization,
            uploads,
            next,
            action,
            stores,
            fuel,
            ActionView::Reply(BodyView::Files(ResponseFileView { file: names })),
            after,
        ),
    ensures
        stored_so_far(form, uploads, after, names, form.file.len() as int),
    decreases fuel,
{
    if index < form.file.len() {
        let (post, n4, a4) = item_goes_through(
            form,
            authorization,
            uploads,
            user_id,
            index,
            stored,
            stores,
            fuel,
            next,
            action,
            names,
            after,
        );
        one_more_item_stands(form, uploads, stores, stored, index as int, post);
        items_stand_from(
            form,
            authorization,
            uploads,
            user_id,
            (index + 1) as usize,
            stored.push(post.filename),
            with_item(
                stores,
                post,
                document_for(form, index as int, post.post_id, user_id),
                uploads[index as int],
            ),
            (fuel - 3) as nat,
            n4,
            a4,
            names,
            after,
        );
    }
}

/// After an ingestion has succeeded, every item of the batch stands in the
/// stores under its stored name, and the stored names are as many as the
/// items, in the order of the batch.
pub proof fn ingested_batch_stands(
    form: UploadFromView,
    authorization: AuthorizationView,
    uploads: Seq<Seq<u8>>,
    stores: Stores,
    names: Seq<Seq<char>>,
    after: Stores,
)
    requires
        form.file.len() <= usize::MAX,
        stores.paired(),
        ingests(
            form,
            authorization,
            uploads,
            stores,
            ActionView::Reply(BodyView::Files(ResponseFileView { file: names })),
            after,
        ),
    ensures
        names.len() == form.file.len(),
        forall|k: int| 0 <= k < names.len() ==> stands(form, uploads, after, #[trigger] names[k], k),
{
    let moves = upload_conduct(form, authorization);
    let outcome = ActionView::Reply(BodyView::Files(ResponseFileView { file: names }));
    let fuel = 6 + 3 * form.file.len();
    reveal_with_fuel(may_run, 7);
    let credential = authorization->Bearer_0;
    let user_id = only(stores.sessions, with_session_token(credential))->0.row.user_id;
    let (next, action) = choose|next: UploadStateView, action: ActionView| #[trigger]
        moves(UploadStateView::Preparing { user_id }, EventView::Done, next, action)
            && match action {
            ActionView::Ask(query) => (fuel - 6) as nat > 0 && may_run(
                moves,
                next,
                stores.serve(query, uploads).1,
                stores.serve(query, uploads).0,
                uploads,
                (fuel - 7) as nat,
                outcome,
                after,
            ),
            _ => outcome == action && after == stores,
        };
    items_stand_from(
        form,
        authorization,
        uploads,
        user_id,
        0,
        Seq::empty(),
        stores,
        (fuel - 6) as nat,
        next,
        action,
        names,
        after,
    );
}

/// What was ingested is read back: after an ingestion has succeeded, the
/// retrieval of the content id of any of its items, which is what stands
/// before the dot of the item's stored name, gives the stored name and the
/// metadata exactly as they were submitted; and the raw file of the stored
/// name is served from the storage root, where it holds the bytes that were
/// uploaded.
pub proof fn ingested_item_is_read_back(
    form: UploadFromView,
    authorization: AuthorizationView,
    uploads: Seq<Seq<u8>>,
    stores: Stores,
    names: Seq<Seq<char>>,
    after: Stores,
    k: int,
)
    requires
        form.file.len() <= usize::MAX,
        stores.paired(),
        ingests(
            form,
            authorization,
            uploads,
            stores,
            ActionView::Reply(BodyView::Files(ResponseFileView { file: names })),
            after,
        ),
        0 <= k < form.file.len(),
    ensures
        names.len() == form.file.len(),
        retrieves(
            names[k].subrange(0, 36),
            after,
            ActionView::Reply(
                BodyView::Item(ItemResponseView { image: names[k], metadata: form.metadata[k] }),
            ),
        ),
        serves(
            names[k],
            after,
            ActionView::Reply(BodyView::File { path: after.root.push(names[k]) }),
        ),
        after.files[names[k]] == uploads[k],
{
    ingested_batch_stands(form, authorization, uploads, stores, names, after);
    standing_item_is_read_back(form, uploads, after, names[k], k);
}

/// Whether `after` holds all that `before` held, and at most more files, post
/// rows and documents: the accounts and the sessions are the same, every post
/// row and every document is where it was, and every file is still there.
pub open spec fn grown_from(after: Stores, before: Stores) -> bool {
    &&& after.users == before.users
    &&& after.sessions == before.sessions
    &&& after.dev_tokens == before.dev_tokens
    &&& after.root == before.root
    &&& before.posts.is_prefix_of(after.posts)
    &&& before.documents.is_prefix_of(after.documents)
    &&& before.files.dom().subset_of(after.files.dom())
}

/// An ingestion that only added up to here only adds to its end.
proof fn run_only_adds(
    form: UploadFromView,
    authorization: AuthorizationView,
    uploads: Seq<Seq<u8>>,
    before: Stores,
    state: UploadStateView,
    event: EventView,
    stores: Stores,
    fuel: nat,
    outcome: ActionView,
    after: Stores,
)
    requires
        grown_from(stores, before),
        may_run(
            upload_conduct(form, authorization),
            state,
            event,
            stores,
            uploads,
            fuel,
            outcome,
            after,
        ),
    ensures
        grown_from(after, before),
    decreases fuel,
{
    let moves = upload_conduct(form, authorization);
    let (next, action) = choose|next: UploadStateView, action: ActionView| #[trigger]
        moves(state, event, next, action) && match action {
            ActionView::Ask(query) => fuel > 0 && may_run(
                moves,
                next,
                stores.serve(query, uploads).1,
                stores.serve(query, uploads).0,
                uploads,
                (fuel - 1) as nat,
                outcome,
                after,
            ),
            _ => outcome == action && after == stores,
        };
    match action {
        ActionView::Ask(query) => {
            let (served, answer) = stores.serve(query, uploads);
            run_only_adds(
                form,
                authorization,
                uploads,
                before,
                next,
                answer,
                served,
                (fuel - 1) as nat,
                outcome,
                after,
            );
        },
        _ => {},
    }
}

/// An ingestion undoes nothing, whatever it comes to: it removes no file, no
/// post row and no document, those of its own earlier items included, and it
/// leaves the accounts and the sessions as they are.
pub proof fn ingestion_only_adds(
    form: UploadFromView,
    authorization: AuthorizationView,
    uploads: Seq<Seq<u8>>,
    stores: Stores,
    outcome: ActionView,
    after: Stores,
)
    requires
        ingests(form, authorization, uploads, stores, outcome, after),
    ensures
        grown_from(after, stores),
{
    run_only_adds(
        form,
        authorization,
        uploads,
        stores,
        UploadStateView::Start,
        EventView::Start,
        stores,
        6 + 3 * form.file.len(),
        outcome,
        after,
    );
}

/// Whether every post row has its file in the storage root.
pub open spec fn backed(stores: Stores) -> bool {
    forall|i: int|
        0 <= i < stores.posts.len() ==> stores.files.contains_key(
            (#[trigger] stores.posts[i]).filename,
        )
}

/// What holds of the stores while an ingestion stands at `state` with `event`
/// in hand: every document has its post row and every post row its file; the
/// file of the item in hand is written before its post row is asked for, and
/// its post row is there before its document is asked for.
pub open spec fn in_order(state: UploadStateView, event: EventView, stores: Stores) -> bool {
    &&& stores.paired()
    &&& backed(stores)
    &&& match (state, event) {
        (UploadStateView::Persisting(p), EventView::Done) => stores.files.contains_key(
            p.new_filename,
        ),
        (UploadStateView::InsertingPost(p), EventView::Done) => any(
            stores.posts,
            with_key(big_endian(p.post_id)),
        ),
        _ => true,
    }
}

/// Adding a row keeps every row that was wanted.
pub proof fn any_of_more<T>(rows: Seq<T>, wanted: spec_fn(T) -> bool, row: T)
    requires
        any(rows, wanted),
    ensures
        any(rows.push(row), wanted),
{
    let i = choose|i: int| 0 <= i < rows.len() && wanted(#[trigger] rows[i]);
    assert(rows.push(row)[i] == rows[i]);
}

/// One query of an ingestion keeps the order.
proof fn step_keeps_the_order(
    form: UploadFromView,
    authorization: AuthorizationView,
    uploads: Seq<Seq<u8>>,
    state: UploadStateView,
    event: EventView,
    stores: Stores,
    next: UploadStateView,
    query: QueryView,
)
    requires
        in_order(state, event, stores),
        upload_moves(form, authorization, state, event, next, ActionView::Ask(query)),
    ensures
        in_order(next, stores.serve(query, uploads).1, stores.serve(query, uploads).0),
{
    let (after, answer) = stores.serve(query, uploads);
    match query {
        QueryView::InsertPost { post_id, user_id, filename, content_type } => {
            if answer == EventView::Done {
                let post = PostRecord { post_id, user_id, filename, content_type };
                assert(after.posts[stores.posts.len() as int] == post);
                assert forall|i: int| 0 <= i < after.documents.len() implies any(
                    after.posts,
                    with_key((#[trigger] after.documents[i]).key),
                ) by {
                    any_of_more(stores.posts, with_key(stores.documents[i].key), post);
                }
            }
        },
        QueryView::InsertDocument { key, document } => {
        },
        QueryView::PersistFile { index, name } => {
        },
        _ => {},
    }
}

/// An ingestion that keeps the order up to here keeps it to its end.
proof fn run_keeps_the_order(
    form: UploadFromView,
    authorization: AuthorizationView,
    uploads: Seq<Seq<u8>>,
    state: UploadStateView,
    event: EventView,
    stores: Stores,
    fuel: nat,
    outcome: ActionView,
    after: Stores,
)
    requires
        in_order(state, event, stores),
        may_run(
            upload_conduct(form, authorization),
            state,
            event,
            stores,
            uploads,
            fuel,
            outcome,
            after,
        ),
    ensures
        after.paired(),
        backed(after),
    decreases fuel,
{
    let moves = upload_conduct(form, authorization);
    let (next, action) = choose|next: UploadStateView, action: ActionView| #[trigger]
        moves(state, event, next, action) && match action {
            ActionView::Ask(query) => fuel > 0 && may_run(
                moves,
                next,
                stores.serve(query, uploads).1,
                stores.serve(query, uploads).0,
                uploads,
                (fuel - 1) as nat,
                outcome,
                after,
            ),
            _ => outcome == action && after == stores,
        };
    match action {
        ActionView::Ask(query) => {
            step_keeps_the_order(form, authorization, uploads, state, event, stores, next, query);
            run_keeps_the_order(
                form,
                authorization,
                uploads,
                next,
                stores.serve(query, uploads).1,
                stores.serve(query, uploads).0,
                (fuel - 1) as nat,
                outcome,
                after,
            );
        },
        _ => {},
    }
}

/// Whatever an ingestion comes to, and however many items it has taken, it
/// leaves no document without its post row and no post row without its file:
/// what may stay behind after a failure is a file without its row, or a row
/// without its document.
pub proof fn ingestion_keeps_the_order(
    form: UploadFromView,
    authorization: AuthorizationView,
    uploads: Seq<Seq<u8>>,
    stores: Stores,
    outcome: ActionView,
    after: Stores,
)
    requires
        stores.paired(),
        backed(stores),
        ingests(form, authorization, uploads, stores, outcome, after),
    ensures
        after.paired(),
        backed(after),
{
    run_keeps_the_order(
        form,
        authorization,
        uploads,
        UploadStateView::Start,
        EventView::Start,
        stores,
        6 + 3 * form.file.len(),
        outcome,
        after,
    );
}

} // verus!
