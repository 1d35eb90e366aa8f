//! Laws of building snapshots.

use std::borrow::Cow;
use vstd::prelude::*;

use crate::snapshot::builder::{IntoText, OptionalField, SnapshotBuilder};
use crate::snapshot::{Snapshot, Summary};
use crate::table_metadata::SchemaId;

verus! {

/// To give the identifier sets that field to what was given, and keeps the others.
pub proof fn with_snapshot_id_gives_it<Parent, Sequence, Time, List, Change, Schema>(
    before: SnapshotBuilder<(), Parent, Sequence, Time, List, Change, Schema>,
    snapshot_id: i64,
    given: SnapshotBuilder<(i64,), Parent, Sequence, Time, List, Change, Schema>,
)
    requires
        call_ensures(
            SnapshotBuilder::<(), Parent, Sequence, Time, List, Change, Schema>::with_snapshot_id,
            (before, snapshot_id),
            given,
        ),
    ensures
        given@.0 == (snapshot_id,),
        given@.1 == before@.1,
        given@.2 == before@.2,
        given@.3 == before@.3,
        given@.4 == before@.4,
        given@.5 == before@.5,
        given@.6 == before@.6,
{
}

/// To give the parent sets that field to what was given, and keeps the others.
pub proof fn with_parent_snapshot_id_gives_it<Id, Sequence, Time, List, Change, Schema>(
    before: SnapshotBuilder<Id, (), Sequence, Time, List, Change, Schema>,
    parent_snapshot_id: Option<i64>,
    given: SnapshotBuilder<Id, (Option<i64>,), Sequence, Time, List, Change, Schema>,
)
    requires
        call_ensures(
            SnapshotBuilder::<Id, (), Sequence, Time, List, Change, Schema>::with_parent_snapshot_id,
            (before, parent_snapshot_id),
            given,
        ),
    ensures
        given@.0 == before@.0,
        given@.1 == (parent_snapshot_id,),
        given@.2 == before@.2,
        given@.3 == before@.3,
        given@.4 == before@.4,
        given@.5 == before@.5,
        given@.6 == before@.6,
{
}

/// To give the sequence number sets that field to what was given, and keeps the others.
pub proof fn with_sequence_number_gives_it<Id, Parent, Time, List, Change, Schema>(
    before: SnapshotBuilder<Id, Parent, (), Time, List, Change, Schema>,
    sequence_number: i64,
    given: SnapshotBuilder<Id, Parent, (i64,), Time, List, Change, Schema>,
)
    requires
        call_ensures(
            SnapshotBuilder::<Id, Parent, (), Time, List, Change, Schema>::with_sequence_number,
            (before, sequence_number),
            given,
        ),
    ensures
        given@.0 == before@.0,
        given@.1 == before@.1,
        given@.2 == (sequence_number,),
        given@.3 == before@.3,
        given@.4 == before@.4,
        given@.5 == before@.5,
        given@.6 == before@.6,
{
}

/// To give the time sets that field to what was given, and keeps the others.
pub proof fn with_timestamp_ms_gives_it<Id, Parent, Sequence, List, Change, Schema>(
    before: SnapshotBuilder<Id, Parent, Sequence, (), List, Change, Schema>,
    timestamp_ms: i64,
    given: SnapshotBuilder<Id, Parent, Sequence, (i64,), List, Change, Schema>,
)
    requires
        call_ensures(
            SnapshotBuilder::<Id, Parent, Sequence, (), List, Change, Schema>::with_timestamp_ms,
            (before, timestamp_ms),
            given,
        ),
    ensures
        given@.0 == before@.0,
        given@.1 == before@.1,
        given@.2 == before@.2,
        given@.3 == (timestamp_ms,),
        given@.4 == before@.4,
        given@.5 == before@.5,
        given@.6 == before@.6,
{
}

/// To give the summary sets that field to what was given, and keeps the others.
pub proof fn with_summary_gives_it<Id, Parent, Sequence, Time, List, Schema>(
    before: SnapshotBuilder<Id, Parent, Sequence, Time, List, (), Schema>,
    summary: Summary,
    given: SnapshotBuilder<Id, Parent, Sequence, Time, List, (Summary,), Schema>,
)
    requires
        call_ensures(
            SnapshotBuilder::<Id, Parent, Sequence, Time, List, (), Schema>::with_summary,
            (before, summary),
            given,
        ),
    ensures
        given@.0 == before@.0,
        given@.1 == before@.1,
        given@.2 == before@.2,
        given@.3 == before@.3,
        given@.4 == before@.4,
        given@.5 == (summary,),
        given@.6 == before@.6,
{
}

/// To give the schema sets that field to what was given, and keeps the others.
pub proof fn with_schema_id_gives_it<Id, Parent, Sequence, Time, List, Change>(
    before: SnapshotBuilder<Id, Parent, Sequence, Time, List, Change, ()>,
    schema_id: SchemaId,
    given: SnapshotBuilder<Id, Parent, Sequence, Time, List, Change, (Option<SchemaId>,)>,
)
    requires
        call_ensures(
            SnapshotBuilder::<Id, Parent, Sequence, Time, List, Change, ()>::with_schema_id,
            (before, schema_id),
            given,
        ),
    ensures
        given@.0 == before@.0,
        given@.1 == before@.1,
        given@.2 == before@.2,
        given@.3 == before@.3,
        given@.4 == before@.4,
        given@.5 == before@.5,
        given@.6 == (Some(schema_id),),
{
}

/// To give the schema, or that there is none, sets that field to what was given, and keeps the
/// others.
pub proof fn schema_id_opt_gives_the_schema<Id, Parent, Sequence, Time, List, Change>(
    before: SnapshotBuilder<Id, Parent, Sequence, Time, List, Change, ()>,
    schema_id: Option<SchemaId>,
    given: SnapshotBuilder<Id, Parent, Sequence, Time, List, Change, (Option<SchemaId>,)>,
)
    requires
        call_ensures(
            SnapshotBuilder::<Id, Parent, Sequence, Time, List, Change, ()>::schema_id_opt,
            (before, schema_id),
            given,
        ),
    ensures
        given@.0 == before@.0,
        given@.1 == before@.1,
        given@.2 == before@.2,
        given@.3 == before@.3,
        given@.4 == before@.4,
        given@.5 == before@.5,
        given@.6 == (schema_id,),
{
}

/// To give the manifest list sets that field to the given text, and keeps the others.
pub proof fn with_manifest_list_gives_it<L: IntoText, Id, Parent, Sequence, Time, Change, Schema>(
    before: SnapshotBuilder<Id, Parent, Sequence, Time, (), Change, Schema>,
    manifest_list: L,
    text: String,
    given: SnapshotBuilder<Id, Parent, Sequence, Time, (String,), Change, Schema>,
)
    requires
        call_ensures(<L as IntoText>::into_text, (manifest_list,), text),
        call_ensures(
            SnapshotBuilder::<Id, Parent, Sequence, Time, (), Change, Schema>::with_manifest_list::<L>,
            (before, manifest_list),
            given,
        ),
    ensures
        given@.0 == before@.0,
        given@.1 == before@.1,
        given@.2 == before@.2,
        given@.3 == before@.3,
        given@.4.0@ == text@,
        given@.5 == before@.5,
        given@.6 == before@.6,
{
}

/// A built snapshot says what its builder was given.
pub proof fn built_snapshot_has_what_was_given<
    Parent: OptionalField<i64>,
    Schema: OptionalField<SchemaId>,
>(
    builder: SnapshotBuilder<(i64,), Parent, (i64,), (i64,), (String,), (Summary,), Schema>,
    parent: Option<i64>,
    schema: Option<SchemaId>,
    snapshot: Snapshot,
    snapshot_id: i64,
    parent_snapshot_id: Option<i64>,
    sequence_number: i64,
    timestamp_ms: i64,
    manifest_list: &str,
    summary: &Summary,
    schema_id: Option<SchemaId>,
)
    requires
        call_ensures(<Parent as OptionalField<i64>>::into_value, (builder@.1,), parent),
        call_ensures(<Schema as OptionalField<SchemaId>>::into_value, (builder@.6,), schema),
        call_ensures(
            SnapshotBuilder::<(i64,), Parent, (i64,), (i64,), (String,), (Summary,), Schema>::build,
            (builder,),
            snapshot,
        ),
        call_ensures(Snapshot::snapshot_id, (&snapshot,), snapshot_id),
        call_ensures(Snapshot::parent_snapshot_id, (&snapshot,), parent_snapshot_id),
        call_ensures(Snapshot::sequence_number, (&snapshot,), sequence_number),
        call_ensures(Snapshot::timestamp_ms, (&snapshot,), timestamp_ms),
        call_ensures(Snapshot::manifest_list, (&snapshot,), manifest_list),
        call_ensures(Snapshot::summary, (&snapshot,), summary),
        call_ensures(Snapshot::schema_id, (&snapshot,), schema_id),
    ensures
        snapshot_id == builder@.0.0,
        parent_snapshot_id == parent,
        sequence_number == builder@.2.0,
        timestamp_ms == builder@.3.0,
        manifest_list@ == builder@.4.0@,
        summary.operation == builder@.5.0.operation,
        summary.additional_properties@ == builder@.5.0.additional_properties@,
        schema_id == schema,
{
}

/// A field that was not given has no value.
pub proof fn field_that_was_not_given<T>(
    field: (),
    value: Option<T>,
)
    requires
        call_ensures(<() as OptionalField<T>>::into_value, (field,), value),
    ensures
        value is None,
{
}

/// A field that was given has the value that was given.
pub proof fn field_that_was_given<T>(
    field: (Option<T>,),
    value: Option<T>,
)
    requires
        call_ensures(<(Option<T>,) as OptionalField<T>>::into_value, (field,), value),
    ensures
        value == field.0,
{
}

/// The manifest list of a snapshot that was built with a `String` has its characters.
pub proof fn manifest_list_given_as_string<
    Parent: OptionalField<i64>,
    Schema: OptionalField<SchemaId>,
>(
    given: String,
    text: String,
    before: SnapshotBuilder<(i64,), Parent, (i64,), (i64,), (), (Summary,), Schema>,
    after: SnapshotBuilder<(i64,), Parent, (i64,), (i64,), (String,), (Summary,), Schema>,
    snapshot: Snapshot,
    manifest_list: &str,
)
    requires
        call_ensures(<String as IntoText>::into_text, (given,), text),
        call_ensures(
            SnapshotBuilder::<(i64,), Parent, (i64,), (i64,), (), (Summary,), Schema>::with_manifest_list::<String>,
            (before, given),
            after,
        ),
        call_ensures(
            SnapshotBuilder::<(i64,), Parent, (i64,), (i64,), (String,), (Summary,), Schema>::build,
            (after,),
            snapshot,
        ),
        call_ensures(Snapshot::manifest_list, (&snapshot,), manifest_list),
    ensures
        text@ == given@,
        manifest_list@ == given@,
{
}

/// The manifest list of a snapshot that was built with a `&str` has its characters.
pub proof fn manifest_list_given_as_str<
    'a,
    Parent: OptionalField<i64>,
    Schema: OptionalField<SchemaId>,
>(
    given: &'a str,
    text: String,
    before: SnapshotBuilder<(i64,), Parent, (i64,), (i64,), (), (Summary,), Schema>,
    after: SnapshotBuilder<(i64,), Parent, (i64,), (i64,), (String,), (Summary,), Schema>,
    snapshot: Snapshot,
    manifest_list: &str,
)
    requires
        call_ensures(<&'a str as IntoText>::into_text, (given,), text),
        call_ensures(
            SnapshotBuilder::<(i64,), Parent, (i64,), (i64,), (), (Summary,), Schema>::with_manifest_list::<&'a str>,
            (before, given),
            after,
        ),
        call_ensures(
            SnapshotBuilder::<(i64,), Parent, (i64,), (i64,), (String,), (Summary,), Schema>::build,
            (after,),
            snapshot,
        ),
        call_ensures(Snapshot::manifest_list, (&snapshot,), manifest_list),
    ensures
        text@ == given@,
        manifest_list@ == given@,
{
}

/// The manifest list of a snapshot that was built with a `&mut str` has its characters.
pub proof fn manifest_list_given_as_mut_str<
    'a,
    Parent: OptionalField<i64>,
    Schema: OptionalField<SchemaId>,
>(
    given: &'a mut str,
    text: String,
    before: SnapshotBuilder<(i64,), Parent, (i64,), (i64,), (), (Summary,), Schema>,
    after: SnapshotBuilder<(i64,), Parent, (i64,), (i64,), (String,), (Summary,), Schema>,
    snapshot: Snapshot,
    manifest_list: &str,
)
    requires
        call_ensures(<&'a mut str as IntoText>::into_text, (given,), text),
        call_ensures(
            SnapshotBuilder::<(i64,), Parent, (i64,), (i64,), (), (Summary,), Schema>::with_manifest_list::<&'a mut str>,
            (before, given),
            after,
        ),
        call_ensures(
            SnapshotBuilder::<(i64,), Parent, (i64,), (i64,), (String,), (Summary,), Schema>::build,
            (after,),
            snapshot,
        ),
        call_ensures(Snapshot::manifest_list, (&snapshot,), manifest_list),
    ensures
        text@ == old(given)@,
        manifest_list@ == old(given)@,
{
}

/// The manifest list of a snapshot that was built with a `&String` has its characters.
pub proof fn manifest_list_given_as_string_reference<
    'a,
    Parent: OptionalField<i64>,
    Schema: OptionalField<SchemaId>,
>(
    given: &'a String,
    text: String,
    before: SnapshotBuilder<(i64,), Parent, (i64,), (i64,), (), (Summary,), Schema>,
    after: SnapshotBuilder<(i64,), Parent, (i64,), (i64,), (String,), (Summary,), Schema>,
    snapshot: Snapshot,
    manifest_list: &str,
)
    requires
        call_ensures(<&'a String as IntoText>::into_text, (given,), text),
        call_ensures(
            SnapshotBuilder::<(i64,), Parent, (i64,), (i64,), (), (Summary,), Schema>::with_manifest_list::<&'a String>,
            (before, given),
            after,
        ),
        call_ensures(
            SnapshotBuilder::<(i64,), Parent, (i64,), (i64,), (String,), (Summary,), Schema>::build,
            (after,),
            snapshot,
        ),
        call_ensures(Snapshot::manifest_list, (&snapshot,), manifest_list),
    ensures
        text@ == given@,
        manifest_list@ == given@,
{
}

/// The manifest list of a snapshot that was built with a `Box<str>` has its characters.
pub proof fn manifest_list_given_as_boxed_str<
    Parent: OptionalField<i64>,
    Schema: OptionalField<SchemaId>,
>(
    given: Box<str>,
    text: String,
    before: SnapshotBuilder<(i64,), Parent, (i64,), (i64,), (), (Summary,), Schema>,
    after: SnapshotBuilder<(i64,), Parent, (i64,), (i64,), (String,), (Summary,), Schema>,
    snapshot: Snapshot,
    manifest_list: &str,
)
    requires
        call_ensures(<Box<str> as IntoText>::into_text, (given,), text),
        call_ensures(
            SnapshotBuilder::<(i64,), Parent, (i64,), (i64,), (), (Summary,), Schema>::with_manifest_list::<Box<str>>,
            (before, given),
            after,
        ),
        call_ensures(
            SnapshotBuilder::<(i64,), Parent, (i64,), (i64,), (String,), (Summary,), Schema>::build,
            (after,),
            snapshot,
        ),
        call_ensures(Snapshot::manifest_list, (&snapshot,), manifest_list),
    ensures
        text@ == (*given)@,
        manifest_list@ == (*given)@,
{
}

/// The manifest list of a snapshot that was built with a `Cow<str>` has its characters.
pub proof fn manifest_list_given_as_cow<
    'a,
    Parent: OptionalField<i64>,
    Schema: OptionalField<SchemaId>,
>(
    given: Cow<'a, str>,
    text: String,
    before: SnapshotBuilder<(i64,), Parent, (i64,), (i64,), (), (Summary,), Schema>,
    after: SnapshotBuilder<(i64,), Parent, (i64,), (i64,), (String,), (Summary,), Schema>,
    snapshot: Snapshot,
    manifest_list: &str,
)
    requires
        call_ensures(<Cow<'a, str> as IntoText>::into_text, (given,), text),
        call_ensures(
            SnapshotBuilder::<(i64,), Parent, (i64,), (i64,), (), (Summary,), Schema>::with_manifest_list::<Cow<'a, str>>,
            (before, given),
            after,
        ),
        call_ensures(
            SnapshotBuilder::<(i64,), Parent, (i64,), (i64,), (String,), (Summary,), Schema>::build,
            (after,),
            snapshot,
        ),
        call_ensures(Snapshot::manifest_list, (&snapshot,), manifest_list),
    ensures
        given matches Cow::Borrowed(inner) ==> text@ == inner@,
        given matches Cow::Owned(inner) ==> text@ == inner@,
        given matches Cow::Borrowed(inner) ==> manifest_list@ == inner@,
        given matches Cow::Owned(inner) ==> manifest_list@ == inner@,
{
}

/// The manifest list of a snapshot that was built with a `char` has its characters.
pub proof fn manifest_list_given_as_char<
    Parent: OptionalField<i64>,
    Schema: OptionalField<SchemaId>,
>(
    given: char,
    text: String,
    before: SnapshotBuilder<(i64,), Parent, (i64,), (i64,), (), (Summary,), Schema>,
    after: SnapshotBuilder<(i64,), Parent, (i64,), (i64,), (String,), (Summary,), Schema>,
    snapshot: Snapshot,
    manifest_list: &str,
)
    requires
        call_ensures(<char as IntoText>::into_text, (given,), text),
        call_ensures(
            SnapshotBuilder::<(i64,), Parent, (i64,), (i64,), (), (Summary,), Schema>::with_manifest_list::<char>,
            (before, given),
            after,
        ),
        call_ensures(
            SnapshotBuilder::<(i64,), Parent, (i64,), (i64,), (String,), (Summary,), Schema>::build,
            (after,),
            snapshot,
        ),
        call_ensures(Snapshot::manifest_list, (&snapshot,), manifest_list),
    ensures
        text@ == seq![given],
        manifest_list@ == seq![given],
{
}

} // verus!
