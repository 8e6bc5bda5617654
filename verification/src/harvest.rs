//! The extraction worker and the orchestrator: from the files found under a
//! root to the collection of their records.

use crate::dicom::container::decoded_elements_until;
use crate::dicom::container::issuer_of_patient_id_tag;
use crate::dicom::dicom_metadata::reason_text;
use crate::dicom::dicom_metadata::record_from_elements;
use crate::dicom::dicom_metadata::DecodeError;
use crate::dicom::dicom_metadata::DicomMetadata;
use crate::dicom::dicom_metadata::MetadataRecord;
use vstd::prelude::*;
use vstd::seq_lib::lemma_multiset_commutative;
use vstd::seq_lib::to_multiset_build;
use vstd::seq_lib::to_multiset_contains;
use vstd::seq_lib::to_multiset_len;
use vstd::seq_lib::to_multiset_remove;
use vstd::string::StringExecFns;

verus! {

/// A regular file found under the root, not yet decoded.
#[derive(Clone, Debug, PartialEq, Eq)]
pub struct FileCandidate {
    /// The path as text. Where the path has no exact text form, this is an
    /// approximation that serves diagnostics only.
    pub path: String,
    /// Whether `path` is the exact text form of the path.
    pub path_is_text: bool,
}

/// A candidate together with what was read from it.
#[derive(Clone, Debug, PartialEq, Eq)]
pub struct FileImage {
    pub candidate: FileCandidate,
    /// The bytes of the file, or `None` where it could not be opened or read.
    pub contents: Option<Vec<u8>>,
}

/// A file that was left out of the output, and why.
#[derive(Clone, Debug, PartialEq, Eq)]
pub struct Diagnostic {
    pub path: String,
    pub error: DecodeError,
}

/// The records of one run. Records are only ever added.
#[derive(Clone, Debug, PartialEq, Eq)]
pub struct ResultCollection {
    records: Vec<DicomMetadata>,
}

/// What one sequential run gives: the records, and a diagnostic for each
/// file that gave none.
#[derive(Clone, Debug, PartialEq, Eq)]
pub struct Harvest {
    pub collection: ResultCollection,
    pub diagnostics: Vec<Diagnostic>,
}

/// A file image as a mathematical value.
pub struct FileImageView {
    pub path: Seq<char>,
    pub path_is_text: bool,
    pub contents: Option<Seq<u8>>,
}

impl View for FileImage {
    type V = FileImageView;

    open spec fn view(&self) -> FileImageView {
        FileImageView {
            path: self.candidate.path@,
            path_is_text: self.candidate.path_is_text,
            contents: match self.contents {
                Some(bytes) => Some(bytes@),
                None => None,
            },
        }
    }
}

impl FileImageView {
    /// The exact text form of the path, where it has one.
    pub open spec fn path_text(self) -> Option<Seq<char>> {
        if self.path_is_text {
            Some(self.path)
        } else {
            None
        }
    }
}

impl View for Diagnostic {
    type V = (Seq<char>, DecodeError);

    open spec fn view(&self) -> (Seq<char>, DecodeError) {
        (self.path@, self.error)
    }
}

impl View for ResultCollection {
    type V = Seq<MetadataRecord>;

    closed spec fn view(&self) -> Seq<MetadataRecord> {
        self.records@.map_values(|record: DicomMetadata| record@)
    }
}

/// What the worker makes of one file: the record of its bounded decode, or
/// the reason why there is none.
pub open spec fn extraction(file: FileImageView) -> Result<MetadataRecord, DecodeError> {
    match file.contents {
        None => Err(DecodeError::Unreadable),
        Some(bytes) => record_from_elements(
            file.path_text(),
            decoded_elements_until(bytes, issuer_of_patient_id_tag()),
        ),
    }
}

/// The record that a file contributes, if any.
pub open spec fn contribution(file: FileImageView) -> Option<MetadataRecord> {
    match extraction(file) {
        Ok(record) => Some(record),
        Err(_) => None,
    }
}

/// The diagnostic that a file gives rise to, if any.
pub open spec fn complaint(file: FileImageView) -> Option<(Seq<char>, DecodeError)> {
    match extraction(file) {
        Ok(_) => None,
        Err(error) => Some((file.path, error)),
    }
}

/// `contribution` as a function value.
pub open spec fn contributions() -> spec_fn(FileImageView) -> Option<MetadataRecord> {
    |file: FileImageView| contribution(file)
}

/// `complaint` as a function value.
pub open spec fn complaints() -> spec_fn(FileImageView) -> Option<(Seq<char>, DecodeError)> {
    |file: FileImageView| complaint(file)
}

/// The records of a run over `files`: the contribution of each file that
/// has one, in the order of the files.
pub open spec fn harvested(files: Seq<FileImageView>) -> Seq<MetadataRecord> {
    files.filter_map(contributions())
}

/// The diagnostics of a run over `files`, in the order of the files.
pub open spec fn reported(files: Seq<FileImageView>) -> Seq<(Seq<char>, DecodeError)> {
    files.filter_map(complaints())
}

/// The files of a run as mathematical values.
pub open spec fn images(files: Seq<FileImage>) -> Seq<FileImageView> {
    files.map_values(|file: FileImage| file@)
}

/// The diagnostics as mathematical values.
pub open spec fn diagnostics_view(diagnostics: Seq<Diagnostic>) -> Seq<(Seq<char>, DecodeError)> {
    diagnostics.map_values(|diagnostic: Diagnostic| diagnostic@)
}

/// The entry that the diagnostic channel gets for a file that gave no
/// record.
pub open spec fn parse_failure_line(path: Seq<char>, error: DecodeError) -> Seq<char> {
    "failed to parse file: "@ + path + ": "@ + reason_text(error)
}

impl Diagnostic {
    /// The entry for the diagnostic channel: the path and what went wrong.
    pub fn line(&self) -> (line: String)
        ensures
            line@ == parse_failure_line(self.path@, self.error),
    {
        let mut line = String::from_str("failed to parse file: ");
        line.append(self.path.as_str());
        line.append(": ");
        let reason = self.error.reason();
        line.append(reason.as_str());
        line
    }
}

/// The extraction worker: decodes one file as far as the record needs.
///
/// A file that cannot be decoded gives a diagnostic and nothing else: the
/// failure goes no further than this.
pub fn extract(file: &FileImage) -> (r: Result<DicomMetadata, Diagnostic>)
    ensures
        match r {
            Ok(record) => contribution(file@) == Some(record@) && complaint(file@) is None,
            Err(diagnostic) => contribution(file@) is None && complaint(file@) == Some(
                diagnostic@,
            ),
        },
{
    let decoded = match &file.contents {
        None => Err(DecodeError::Unreadable),
        Some(bytes) => {
            let filepath = if file.candidate.path_is_text {
                Some(file.candidate.path.as_str())
            } else {
                None
            };
            DicomMetadata::from_file_optimised(filepath, bytes.as_slice())
        },
    };
    match decoded {
        Ok(record) => Ok(record),
        Err(error) => Err(Diagnostic { path: file.candidate.path.clone(), error }),
    }
}

impl ResultCollection {
    /// An empty collection.
    pub fn new() -> (collection: Self)
        ensures
            collection@ == Seq::<MetadataRecord>::empty(),
    {
        ResultCollection { records: Vec::new() }
    }

    /// Adds a record. Those already there stay as they are.
    pub fn insert(&mut self, record: DicomMetadata)
        ensures
            final(self)@ == old(self)@.push(record@),
    {
        self.records.push(record);
    }

    /// The number of records.
    pub fn len(&self) -> (n: usize)
        ensures
            n == self@.len(),
    {
        self.records.len()
    }

    /// The records, in the order in which they were added.
    pub fn records(&self) -> (records: &Vec<DicomMetadata>)
        ensures
            records@.len() == self@.len(),
            forall|i: int| 0 <= i < records@.len() ==> (#[trigger] records@[i])@ == self@[i],
    {
        &self.records
    }
}

impl Harvest {
    /// The state of a run before any file was handled.
    pub fn new() -> (harvest: Self)
        ensures
            harvest.collection@ == Seq::<MetadataRecord>::empty(),
            harvest.diagnostics@ == Seq::<Diagnostic>::empty(),
    {
        Harvest { collection: ResultCollection::new(), diagnostics: Vec::new() }
    }

    /// Takes in what a worker made of one file: its record joins the
    /// collection, or its diagnostic joins the others. Nothing that is
    /// already there is touched.
    pub fn absorb(&mut self, outcome: Result<DicomMetadata, Diagnostic>)
        ensures
            final(self).collection@ == match outcome {
                Ok(record) => old(self).collection@.push(record@),
                Err(_) => old(self).collection@,
            },
            final(self).diagnostics@ == match outcome {
                Ok(_) => old(self).diagnostics@,
                Err(diagnostic) => old(self).diagnostics@.push(diagnostic),
            },
    {
        match outcome {
            Ok(record) => {
                self.collection.insert(record);
            },
            Err(diagnostic) => {
                self.diagnostics.push(diagnostic);
            },
        }
    }
}

/// Runs the worker over every file in turn and collects what it gives.
///
/// No file keeps another from being handled: each one adds either its
/// record or its diagnostic.
pub fn sync_parser(files: &Vec<FileImage>) -> (harvest: Harvest)
    ensures
        harvest.collection@ == harvested(images(files@)),
        diagnostics_view(harvest.diagnostics@) == reported(images(files@)),
        harvest.collection@.len() == images(files@).filter(decodables()).len(),
        harvest.collection@.len() + harvest.diagnostics@.len() == files@.len(),
{
    let mut harvest = Harvest::new();
    let mut i: usize = 0;
    while i < files.len()
        invariant
            i <= files.len(),
            harvest.collection@ == harvested(images(files@).take(i as int)),
            diagnostics_view(harvest.diagnostics@) == reported(images(files@).take(i as int)),
        decreases files.len() - i,
    {
        proof {
            images(files@).lemma_filter_map_take_succ(contributions(), i as int);
            images(files@).lemma_filter_map_take_succ(complaints(), i as int);
        }
        harvest.absorb(extract(&files[i]));
        i += 1;
    }
    proof {
        assert(images(files@).take(files.len() as int) =~= images(files@));
        lemma_one_record_per_decodable_file(images(files@));
    }
    harvest
}

/// Whether the worker makes a record of a file: the file was read, it is a
/// container, both fields are there as text, and its path is text.
pub open spec fn decodable(file: FileImageView) -> bool {
    extraction(file) is Ok
}

/// `decodable` as a function value.
pub open spec fn decodables() -> spec_fn(FileImageView) -> bool {
    |file: FileImageView| decodable(file)
}

/// A run gives as many records as there are decodable files among its
/// input, no more and no fewer, and one diagnostic for each of the others.
pub proof fn lemma_one_record_per_decodable_file(files: Seq<FileImageView>)
    ensures
        harvested(files).len() == files.filter(decodables()).len(),
        harvested(files).len() + reported(files).len() == files.len(),
    decreases files.len(),
{
    reveal(Seq::filter);
    if files.len() > 0 {
        lemma_one_record_per_decodable_file(files.drop_last());
    }
}

/// A record is in the output exactly when some file of the input decodes to
/// it: a file that does not decode puts nothing there, and every file that
/// decodes has its record there, whatever the other files are.
pub proof fn lemma_records_stem_from_files(files: Seq<FileImageView>, record: MetadataRecord)
    ensures
        harvested(files).contains(record) <==> exists|i: int|
            0 <= i < files.len() && contribution(#[trigger] files[i]) == Some(record),
    decreases files.len(),
{
    if files.len() > 0 {
        let rest = files.drop_last();
        lemma_records_stem_from_files(rest, record);
        if harvested(files).contains(record) {
            // The record stands among those of `rest`, or the last file gave it.
            let k = choose|k: int| 0 <= k < harvested(files).len() && harvested(files)[k] == record;
            if k < harvested(rest).len() {
                let i = choose|i: int|
                    0 <= i < rest.len() && contribution(#[trigger] rest[i]) == Some(record);
                assert(files[i] == rest[i]);
            }
        }
        if exists|i: int| 0 <= i < files.len() && contribution(#[trigger] files[i]) == Some(record) {
            let i = choose|i: int|
                0 <= i < files.len() && contribution(#[trigger] files[i]) == Some(record);
            if i < rest.len() {
                assert(rest[i] == files[i]);
                let k = choose|k: int| 0 <= k < harvested(rest).len() && harvested(rest)[k] == record;
                assert(harvested(files)[k] == record);
            } else {
                assert(harvested(files)[harvested(rest).len() as int] == record);
            }
        }
    }
}

/// The records of two inputs put end to end are the records of the one
/// followed by the records of the other.
pub proof fn lemma_harvested_concat(first: Seq<FileImageView>, second: Seq<FileImageView>)
    ensures
        harvested(first + second) == harvested(first) + harvested(second),
    decreases second.len(),
{
    if second.len() > 0 {
        lemma_harvested_concat(first, second.drop_last());
        assert((first + second).drop_last() =~= first + second.drop_last());
    }
}

/// What one file adds to the records, whatever its place in the input.
proof fn lemma_harvested_without(files: Seq<FileImageView>, i: int)
    requires
        0 <= i < files.len(),
    ensures
        harvested(files) == harvested(files.take(i)) + harvested(seq![files[i]]) + harvested(
            files.skip(i + 1),
        ),
        harvested(files.remove(i)) == harvested(files.take(i)) + harvested(files.skip(i + 1)),
{
    let before = files.take(i);
    let one = seq![files[i]];
    let after = files.skip(i + 1);
    assert(files =~= before + one + after);
    lemma_harvested_concat(before, one);
    lemma_harvested_concat(before + one, after);
    lemma_harvested_concat(before, after);
}

/// A file that does not decode is as good as absent: with it or without it,
/// the other files give the same records in the same order.
pub proof fn lemma_failures_are_isolated(files: Seq<FileImageView>, i: int)
    requires
        0 <= i < files.len(),
        !decodable(files[i]),
    ensures
        harvested(files.remove(i)) == harvested(files),
{
    lemma_harvested_without(files, i);
    Seq::lemma_filter_map_singleton(files[i], contributions());
}

/// The order in which the files are handled does not matter: two inputs
/// that hold the same files give the same records, each as often.
pub proof fn lemma_order_is_irrelevant(a: Seq<FileImageView>, b: Seq<FileImageView>)
    requires
        a.to_multiset() == b.to_multiset(),
    ensures
        harvested(a).to_multiset() == harvested(b).to_multiset(),
    decreases a.len(),
{
    broadcast use vstd::multiset::group_multiset_axioms;

    to_multiset_len(a);
    to_multiset_len(b);
    if a.len() > 0 {
        // Take the last file of `a` out of both: what is left still holds
        // the same files, and the file adds the same to either side.
        let x = a.last();
        let shorter_a = a.drop_last();
        assert(a =~= shorter_a.push(x));
        to_multiset_build(shorter_a, x);
        to_multiset_contains(b, x);
        let j = choose|j: int| 0 <= j < b.len() && b[j] == x;
        let shorter_b = b.remove(j);
        to_multiset_remove(b, j);
        assert(shorter_a.to_multiset() =~= shorter_b.to_multiset());
        lemma_order_is_irrelevant(shorter_a, shorter_b);
        let added = harvested(seq![x]);
        lemma_harvested_concat(shorter_a, seq![x]);
        assert(a =~= shorter_a + seq![x]);
        lemma_multiset_commutative(harvested(shorter_a), added);
        lemma_harvested_without(b, j);
        lemma_multiset_commutative(harvested(b.take(j)), added);
        lemma_multiset_commutative(harvested(b.take(j)) + added, harvested(b.skip(j + 1)));
        lemma_multiset_commutative(harvested(b.take(j)), harvested(b.skip(j + 1)));
    }
}

} // verus!
