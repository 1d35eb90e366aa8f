//! A builder for snapshots.

use std::borrow::Cow;
use vstd::prelude::*;

use crate::snapshot::{Snapshot, SnapshotView, Summary};
use crate::table_metadata::SchemaId;

verus! {

/// A snapshot in the making.
///
/// Each type parameter says of one field whether it was given: `()` where it was not, and a
/// tuple of its value where it was. So a field can be given once only, and a snapshot can be
/// built only when all fields were given that have no default.
pub struct SnapshotBuilder<Id, Parent, Sequence, Time, List, Change, Schema> {
    snapshot_id: Id,
    parent_snapshot_id: Parent,
    sequence_number: Sequence,
    timestamp_ms: Time,
    manifest_list: List,
    summary: Change,
    schema_id: Schema,
}

/// The model of a [`SnapshotBuilder`]: its fields, in the order of the type parameters.
impl<Id, Parent, Sequence, Time, List, Change, Schema> View for SnapshotBuilder<
    Id,
    Parent,
    Sequence,
    Time,
    List,
    Change,
    Schema,
> {
    type V = (Id, Parent, Sequence, Time, List, Change, Schema);

    closed spec fn view(&self) -> Self::V {
        (
            self.snapshot_id,
            self.parent_snapshot_id,
            self.sequence_number,
            self.timestamp_ms,
            self.manifest_list,
            self.summary,
            self.schema_id,
        )
    }
}

/// A field of a builder that need not be given.
pub trait OptionalField<T>: Sized {
    /// The value of the field, which is `None` where it was not given.
    spec fn value(self) -> Option<T>;

    /// The value of the field, which is `None` where it was not given.
    fn into_value(self) -> (value: Option<T>)
        ensures
            value == self.value(),
    ;
}

impl<T> OptionalField<T> for () {
    open spec fn value(self) -> Option<T> {
        None
    }

    fn into_value(self) -> (value: Option<T>) {
        None
    }
}

impl<T> OptionalField<T> for (Option<T>,) {
    open spec fn value(self) -> Option<T> {
        self.0
    }

    fn into_value(self) -> (value: Option<T>) {
        self.0
    }
}

/// What can be given as a text: all that the standard library turns into a `String`, and the
/// types of others that say what text they stand for.
pub trait IntoText: Sized {
    /// The characters of the text.
    spec fn text(self) -> Seq<char>;

    /// The text as a string.
    fn into_text(self) -> (text: String)
        ensures
            text@ == self.text(),
    ;
}

impl IntoText for String {
    open spec fn text(self) -> Seq<char> {
        self@
    }

    fn into_text(self) -> (text: String) {
        self
    }
}

impl<'a> IntoText for &'a str {
    open spec fn text(self) -> Seq<char> {
        self@
    }

    fn into_text(self) -> (text: String) {
        self.to_owned()
    }
}

impl<'a> IntoText for &'a mut str {
    open spec fn text(self) -> Seq<char> {
        (*self)@
    }

    fn into_text(self) -> (text: String) {
        (&*self).to_owned()
    }
}

impl<'a> IntoText for &'a String {
    open spec fn text(self) -> Seq<char> {
        self@
    }

    fn into_text(self) -> (text: String) {
        self.clone()
    }
}

impl IntoText for Box<str> {
    open spec fn text(self) -> Seq<char> {
        self@
    }

    fn into_text(self) -> (text: String) {
        (&*self).to_owned()
    }
}

impl<'a> IntoText for Cow<'a, str> {
    open spec fn text(self) -> Seq<char> {
        self@
    }

    fn into_text(self) -> (text: String) {
        match self {
            Cow::Borrowed(text) => text.to_owned(),
            Cow::Owned(text) => text,
        }
    }
}

/// Calls `<String as From<char>>::from`.
///
/// Trusted: the string consists of the one character.
#[verifier::external_body]
fn string_of_char(character: char) -> (text: String)
    ensures
        text@ == seq![character],
{
    String::from(character)
}

impl IntoText for char {
    open spec fn text(self) -> Seq<char> {
        seq![self]
    }

    fn into_text(self) -> (text: String) {
        string_of_char(self)
    }
}

impl Snapshot {
    /// Starts to build a snapshot. Nothing is given yet.
    pub fn builder() -> (builder: SnapshotBuilder<(), (), (), (), (), (), ()>)
        ensures
            builder@ == ((), (), (), (), (), (), ()),
    {
        SnapshotBuilder {
            snapshot_id: (),
            parent_snapshot_id: (),
            sequence_number: (),
            timestamp_ms: (),
            manifest_list: (),
            summary: (),
            schema_id: (),
        }
    }
}

impl<Parent, Sequence, Time, List, Change, Schema> SnapshotBuilder<
    (),
    Parent,
    Sequence,
    Time,
    List,
    Change,
    Schema,
> {
    /// Gives the identifier of the snapshot.
    pub fn with_snapshot_id(self, snapshot_id: i64) -> (builder: SnapshotBuilder<
        (i64,),
        Parent,
        Sequence,
        Time,
        List,
        Change,
        Schema,
    >)
        ensures
            builder@ == ((snapshot_id,), self@.1, self@.2, self@.3, self@.4, self@.5, self@.6),
    {
        SnapshotBuilder {
            snapshot_id: (snapshot_id,),
            parent_snapshot_id: self.parent_snapshot_id,
            sequence_number: self.sequence_number,
            timestamp_ms: self.timestamp_ms,
            manifest_list: self.manifest_list,
            summary: self.summary,
            schema_id: self.schema_id,
        }
    }
}

impl<Id, Sequence, Time, List, Change, Schema> SnapshotBuilder<
    Id,
    (),
    Sequence,
    Time,
    List,
    Change,
    Schema,
> {
    /// Gives the identifier of the parent. Without it the snapshot has no parent.
    pub fn with_parent_snapshot_id(self, parent_snapshot_id: Option<i64>) -> (builder: SnapshotBuilder<
        Id,
        (Option<i64>,),
        Sequence,
        Time,
        List,
        Change,
        Schema,
    >)
        ensures
            builder@ == (self@.0, (parent_snapshot_id,), self@.2, self@.3, self@.4, self@.5, self@.6),
    {
        SnapshotBuilder {
            snapshot_id: self.snapshot_id,
            parent_snapshot_id: (parent_snapshot_id,),
            sequence_number: self.sequence_number,
            timestamp_ms: self.timestamp_ms,
            manifest_list: self.manifest_list,
            summary: self.summary,
            schema_id: self.schema_id,
        }
    }
}

impl<Id, Parent, Time, List, Change, Schema> SnapshotBuilder<
    Id,
    Parent,
    (),
    Time,
    List,
    Change,
    Schema,
> {
    /// Gives the sequence number.
    pub fn with_sequence_number(self, sequence_number: i64) -> (builder: SnapshotBuilder<
        Id,
        Parent,
        (i64,),
        Time,
        List,
        Change,
        Schema,
    >)
        ensures
            builder@ == (self@.0, self@.1, (sequence_number,), self@.3, self@.4, self@.5, self@.6),
    {
        SnapshotBuilder {
            snapshot_id: self.snapshot_id,
            parent_snapshot_id: self.parent_snapshot_id,
            sequence_number: (sequence_number,),
            timestamp_ms: self.timestamp_ms,
            manifest_list: self.manifest_list,
            summary: self.summary,
            schema_id: self.schema_id,
        }
    }
}

impl<Id, Parent, Sequence, List, Change, Schema> SnapshotBuilder<
    Id,
    Parent,
    Sequence,
    (),
    List,
    Change,
    Schema,
> {
    /// Gives the time at which the snapshot was made.
    pub fn with_timestamp_ms(self, timestamp_ms: i64) -> (builder: SnapshotBuilder<
        Id,
        Parent,
        Sequence,
        (i64,),
        List,
        Change,
        Schema,
    >)
        ensures
            builder@ == (self@.0, self@.1, self@.2, (timestamp_ms,), self@.4, self@.5, self@.6),
    {
        SnapshotBuilder {
            snapshot_id: self.snapshot_id,
            parent_snapshot_id: self.parent_snapshot_id,
            sequence_number: self.sequence_number,
            timestamp_ms: (timestamp_ms,),
            manifest_list: self.manifest_list,
            summary: self.summary,
            schema_id: self.schema_id,
        }
    }
}

impl<Id, Parent, Sequence, Time, Change, Schema> SnapshotBuilder<
    Id,
    Parent,
    Sequence,
    Time,
    (),
    Change,
    Schema,
> {
    /// Gives the location of the manifest list.
    pub fn with_manifest_list<L: IntoText>(self, manifest_list: L) -> (builder: SnapshotBuilder<
        Id,
        Parent,
        Sequence,
        Time,
        (String,),
        Change,
        Schema,
    >)
        ensures
            builder@ == (self@.0, self@.1, self@.2, self@.3, builder@.4, self@.5, self@.6),
            builder@.4.0@ == manifest_list.text(),
    {
        SnapshotBuilder {
            snapshot_id: self.snapshot_id,
            parent_snapshot_id: self.parent_snapshot_id,
            sequence_number: self.sequence_number,
            timestamp_ms: self.timestamp_ms,
            manifest_list: (manifest_list.into_text(),),
            summary: self.summary,
            schema_id: self.schema_id,
        }
    }
}

impl<Id, Parent, Sequence, Time, List, Schema> SnapshotBuilder<
    Id,
    Parent,
    Sequence,
    Time,
    List,
    (),
    Schema,
> {
    /// Gives the summary.
    pub fn with_summary(self, summary: Summary) -> (builder: SnapshotBuilder<
        Id,
        Parent,
        Sequence,
        Time,
        List,
        (Summary,),
        Schema,
    >)
        ensures
            builder@ == (self@.0, self@.1, self@.2, self@.3, self@.4, (summary,), self@.6),
    {
        SnapshotBuilder {
            snapshot_id: self.snapshot_id,
            parent_snapshot_id: self.parent_snapshot_id,
            sequence_number: self.sequence_number,
            timestamp_ms: self.timestamp_ms,
            manifest_list: self.manifest_list,
            summary: (summary,),
            schema_id: self.schema_id,
        }
    }
}

impl<Id, Parent, Sequence, Time, List, Change> SnapshotBuilder<
    Id,
    Parent,
    Sequence,
    Time,
    List,
    Change,
    (),
> {
    /// Gives the identifier of the schema. Without it the snapshot names no schema.
    pub fn with_schema_id(self, schema_id: SchemaId) -> (builder: SnapshotBuilder<
        Id,
        Parent,
        Sequence,
        Time,
        List,
        Change,
        (Option<SchemaId>,),
    >)
        ensures
            builder@ == (self@.0, self@.1, self@.2, self@.3, self@.4, self@.5, (Some(schema_id),)),
    {
        SnapshotBuilder {
            snapshot_id: self.snapshot_id,
            parent_snapshot_id: self.parent_snapshot_id,
            sequence_number: self.sequence_number,
            timestamp_ms: self.timestamp_ms,
            manifest_list: self.manifest_list,
            summary: self.summary,
            schema_id: (Some(schema_id),),
        }
    }

    /// Gives the identifier of the schema, or that the snapshot names none.
    pub fn schema_id_opt(self, schema_id: Option<SchemaId>) -> (builder: SnapshotBuilder<
        Id,
        Parent,
        Sequence,
        Time,
        List,
        Change,
        (Option<SchemaId>,),
    >)
        ensures
            builder@ == (self@.0, self@.1, self@.2, self@.3, self@.4, self@.5, (schema_id,)),
    {
        SnapshotBuilder {
            snapshot_id: self.snapshot_id,
            parent_snapshot_id: self.parent_snapshot_id,
            sequence_number: self.sequence_number,
            timestamp_ms: self.timestamp_ms,
            manifest_list: self.manifest_list,
            summary: self.summary,
            schema_id: (schema_id,),
        }
    }
}

impl<Parent: OptionalField<i64>, Schema: OptionalField<SchemaId>> SnapshotBuilder<
    (i64,),
    Parent,
    (i64,),
    (i64,),
    (String,),
    (Summary,),
    Schema,
> {
    /// Builds the snapshot of the fields that were given.
    pub fn build(self) -> (snapshot: Snapshot)
        ensures
            snapshot@ == (SnapshotView {
                snapshot_id: self@.0.0,
                parent_snapshot_id: self@.1.value(),
                sequence_number: self@.2.0,
                timestamp_ms: self@.3.0,
                manifest_list: self@.4.0@,
                summary: self@.5.0@,
                schema_id: self@.6.value(),
            }),
    {
        Snapshot {
            snapshot_id: self.snapshot_id.0,
            parent_snapshot_id: self.parent_snapshot_id.into_value(),
            sequence_number: self.sequence_number.0,
            timestamp_ms: self.timestamp_ms.0,
            manifest_list: self.manifest_list.0,
            summary: self.summary.0,
            schema_id: self.schema_id.into_value(),
        }
    }
}

} // verus!
