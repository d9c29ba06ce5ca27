//! Deterministic naming and template parameters.
//!
//! Every external resource name is a pure function of the plan identifier and
//! the resource kind, so a re-run of the same plan reconstructs exactly the
//! names it used before, and distinct kinds or distinct plans can never
//! collide (see [`lemma_stack_name_encode_injective`]).

use vstd::prelude::*;
use vstd::string::*;

use crate::strutil::last_index_of;
use crate::strutil::rfind_char;

verus! {

/// A key/value template parameter.
#[derive(Clone, Debug)]
pub struct Param {
    pub key: String,
    pub value: String,
}

/// The mathematical value of a [`Param`].
#[verifier::ext_equal]
pub struct ParamView {
    pub key: Seq<char>,
    pub value: Seq<char>,
}

impl View for Param {
    type V = ParamView;

    open spec fn view(&self) -> ParamView {
        ParamView { key: self.key@, value: self.value@ }
    }
}

impl DeepView for Param {
    type V = ParamView;

    open spec fn deep_view(&self) -> ParamView {
        self.view()
    }
}

/// Wraps a key and a value as a template parameter.
pub fn build_param(k: &str, v: &str) -> (r: Param)
    ensures
        r@ == (ParamView { key: k@, value: v@ }),
{
    Param { key: String::from_str(k), value: String::from_str(v) }
}

/// A stack kind together with the plan identifier it is scoped to.
pub enum StackName {
    Ec2InstanceRole(String),
    Vpc(String),
    AsgBlizzards(String),
}

/// The mathematical value of a [`StackName`].
#[verifier::ext_equal]
pub enum StackNameView {
    Ec2InstanceRole(Seq<char>),
    Vpc(Seq<char>),
    AsgBlizzards(Seq<char>),
}

impl View for StackName {
    type V = StackNameView;

    open spec fn view(&self) -> StackNameView {
        match self {
            StackName::Ec2InstanceRole(id) => StackNameView::Ec2InstanceRole(id@),
            StackName::Vpc(id) => StackNameView::Vpc(id@),
            StackName::AsgBlizzards(id) => StackNameView::AsgBlizzards(id@),
        }
    }
}

/// The deterministic external name of a stack: the plan identifier followed
/// by a suffix unique to the kind.
pub open spec fn spec_encode_stack_name(n: StackNameView) -> Seq<char> {
    match n {
        StackNameView::Ec2InstanceRole(id) => id + "-ec2-instance-role"@,
        StackNameView::Vpc(id) => id + "-vpc"@,
        StackNameView::AsgBlizzards(id) => id + "-asg-blizzards"@,
    }
}

impl StackName {
    /// Encodes the external stack name for this kind and plan identifier.
    pub fn encode(&self) -> (r: String)
        ensures
            r@ == spec_encode_stack_name(self@),
    {
        match self {
            StackName::Ec2InstanceRole(id) => String::from_str(id.as_str()).concat(
                "-ec2-instance-role",
            ),
            StackName::Vpc(id) => String::from_str(id.as_str()).concat("-vpc"),
            StackName::AsgBlizzards(id) => String::from_str(id.as_str()).concat("-asg-blizzards"),
        }
    }
}

proof fn lemma_append_cancel(x: Seq<char>, y: Seq<char>, s: Seq<char>)
    requires
        x + s == y + s,
    ensures
        x == y,
{
    assert((x + s).len() == x.len() + s.len());
    assert((y + s).len() == y.len() + s.len());
    assert forall|i: int| 0 <= i < x.len() implies x[i] == y[i] by {
        assert((x + s)[i] == x[i]);
        assert((y + s)[i] == y[i]);
    }
    assert(x =~= y);
}

proof fn lemma_append_last(x: Seq<char>, s: Seq<char>)
    requires
        s.len() > 0,
    ensures
        (x + s).last() == s.last(),
{
    assert((x + s)[x.len() + s.len() - 1] == s[s.len() - 1]);
}

/// Stack naming is deterministic and injective: equal kind/identifier pairs
/// encode equally, and equal encodings can only come from the same kind and
/// the same plan identifier.
pub proof fn lemma_stack_name_encode_injective(a: StackNameView, b: StackNameView)
    ensures
        a == b ==> spec_encode_stack_name(a) == spec_encode_stack_name(b),
        spec_encode_stack_name(a) == spec_encode_stack_name(b) ==> a == b,
{
    reveal_strlit("-ec2-instance-role");
    reveal_strlit("-vpc");
    reveal_strlit("-asg-blizzards");
    if spec_encode_stack_name(a) == spec_encode_stack_name(b) {
        match (a, b) {
            (StackNameView::Ec2InstanceRole(i), StackNameView::Ec2InstanceRole(j)) => {
                lemma_append_cancel(i, j, "-ec2-instance-role"@);
            },
            (StackNameView::Vpc(i), StackNameView::Vpc(j)) => {
                lemma_append_cancel(i, j, "-vpc"@);
            },
            (StackNameView::AsgBlizzards(i), StackNameView::AsgBlizzards(j)) => {
                lemma_append_cancel(i, j, "-asg-blizzards"@);
            },
            (x, y) => {
                lemma_append_last_of_encode(x);
                lemma_append_last_of_encode(y);
                assert(false);
            },
        }
    }
}

proof fn lemma_append_last_of_encode(n: StackNameView)
    ensures
        n is Ec2InstanceRole ==> spec_encode_stack_name(n).last() == "-ec2-instance-role"@.last(),
        n is Vpc ==> spec_encode_stack_name(n).last() == "-vpc"@.last(),
        n is AsgBlizzards ==> spec_encode_stack_name(n).last() == "-asg-blizzards"@.last(),
{
    reveal_strlit("-ec2-instance-role");
    reveal_strlit("-vpc");
    reveal_strlit("-asg-blizzards");
    match n {
        StackNameView::Ec2InstanceRole(i) => lemma_append_last(i, "-ec2-instance-role"@),
        StackNameView::Vpc(i) => lemma_append_last(i, "-vpc"@),
        StackNameView::AsgBlizzards(i) => lemma_append_last(i, "-asg-blizzards"@),
    }
}

/// An object-storage key namespace scoped to the plan identifier.
pub enum StorageNamespace {
    BlizzardBin(String),
    ConfigFile(String),
    Ec2AccessKey(String),
}

/// The mathematical value of a [`StorageNamespace`].
#[verifier::ext_equal]
pub enum StorageNamespaceView {
    BlizzardBin(Seq<char>),
    ConfigFile(Seq<char>),
    Ec2AccessKey(Seq<char>),
}

impl View for StorageNamespace {
    type V = StorageNamespaceView;

    open spec fn view(&self) -> StorageNamespaceView {
        match self {
            StorageNamespace::BlizzardBin(id) => StorageNamespaceView::BlizzardBin(id@),
            StorageNamespace::ConfigFile(id) => StorageNamespaceView::ConfigFile(id@),
            StorageNamespace::Ec2AccessKey(id) => StorageNamespaceView::Ec2AccessKey(id@),
        }
    }
}

/// The deterministic object key for a namespaced artifact of a plan.
pub open spec fn spec_encode_storage_key(n: StorageNamespaceView) -> Seq<char> {
    match n {
        StorageNamespaceView::BlizzardBin(id) => id + "/install/blizzard"@,
        StorageNamespaceView::ConfigFile(id) => id + "/blizzardup-aws.config.yaml"@,
        StorageNamespaceView::Ec2AccessKey(id) => id + "/ec2-access.key"@,
    }
}

impl StorageNamespace {
    /// Encodes the object key for this namespace and plan identifier.
    pub fn encode(&self) -> (r: String)
        ensures
            r@ == spec_encode_storage_key(self@),
    {
        match self {
            StorageNamespace::BlizzardBin(id) => String::from_str(id.as_str()).concat(
                "/install/blizzard",
            ),
            StorageNamespace::ConfigFile(id) => String::from_str(id.as_str()).concat(
                "/blizzardup-aws.config.yaml",
            ),
            StorageNamespace::Ec2AccessKey(id) => String::from_str(id.as_str()).concat(
                "/ec2-access.key",
            ),
        }
    }
}

/// Storage keys are deterministic and injective in the same way as stack
/// names: equal namespace/identifier pairs encode equally, and equal keys can
/// only come from the same namespace and the same plan identifier.
pub proof fn lemma_storage_key_encode_injective(a: StorageNamespaceView, b: StorageNamespaceView)
    ensures
        a == b ==> spec_encode_storage_key(a) == spec_encode_storage_key(b),
        spec_encode_storage_key(a) == spec_encode_storage_key(b) ==> a == b,
{
    reveal_strlit("/install/blizzard");
    reveal_strlit("/blizzardup-aws.config.yaml");
    reveal_strlit("/ec2-access.key");
    if spec_encode_storage_key(a) == spec_encode_storage_key(b) {
        match (a, b) {
            (StorageNamespaceView::BlizzardBin(i), StorageNamespaceView::BlizzardBin(j)) => {
                lemma_append_cancel(i, j, "/install/blizzard"@);
            },
            (StorageNamespaceView::ConfigFile(i), StorageNamespaceView::ConfigFile(j)) => {
                lemma_append_cancel(i, j, "/blizzardup-aws.config.yaml"@);
            },
            (StorageNamespaceView::Ec2AccessKey(i), StorageNamespaceView::Ec2AccessKey(j)) => {
                lemma_append_cancel(i, j, "/ec2-access.key"@);
            },
            (x, y) => {
                lemma_storage_key_last(x);
                lemma_storage_key_last(y);
                assert(false);
            },
        }
    }
}

proof fn lemma_storage_key_last(n: StorageNamespaceView)
    ensures
        n is BlizzardBin ==> spec_encode_storage_key(n).last() == "/install/blizzard"@.last(),
        n is ConfigFile ==> spec_encode_storage_key(n).last()
            == "/blizzardup-aws.config.yaml"@.last(),
        n is Ec2AccessKey ==> spec_encode_storage_key(n).last() == "/ec2-access.key"@.last(),
{
    reveal_strlit("/install/blizzard");
    reveal_strlit("/blizzardup-aws.config.yaml");
    reveal_strlit("/ec2-access.key");
    match n {
        StorageNamespaceView::BlizzardBin(i) => lemma_append_last(i, "/install/blizzard"@),
        StorageNamespaceView::ConfigFile(i) => lemma_append_last(
            i,
            "/blizzardup-aws.config.yaml"@,
        ),
        StorageNamespaceView::Ec2AccessKey(i) => lemma_append_last(i, "/ec2-access.key"@),
    }
}

/// The deterministic key-pair name for a plan.
pub open spec fn spec_ec2_key_name(id: Seq<char>) -> Seq<char> {
    id + "-ec2-key"@
}

/// Derives the key-pair name for a plan identifier.
pub fn ec2_key_name(id: &str) -> (r: String)
    ensures
        r@ == spec_ec2_key_name(id@),
{
    String::from_str(id).concat("-ec2-key")
}

/// The directory part of `p`, up to and including the last `'/'` (empty when
/// there is none).
pub open spec fn spec_dir_prefix(p: Seq<char>) -> Seq<char> {
    p.take(last_index_of(p, '/') + 1)
}

/// The file-name part of `p`, after the last `'/'`.
pub open spec fn spec_file_name(p: Seq<char>) -> Seq<char> {
    p.skip(last_index_of(p, '/') + 1)
}

/// The stem of a file name: everything before the last `'.'`, except that a
/// leading dot does not begin an extension.
pub open spec fn spec_file_stem(name: Seq<char>) -> Seq<char> {
    let d = last_index_of(name, '.');
    if d <= 0 {
        name
    } else {
        name.take(d)
    }
}

/// The local path for private key material, derived from the ledger path:
/// same directory, ledger file stem, `-ec2-access.key` appended.
pub open spec fn spec_ec2_key_path(p: Seq<char>) -> Seq<char> {
    spec_dir_prefix(p) + spec_file_stem(spec_file_name(p)) + "-ec2-access.key"@
}

/// Derives the local private-key path from the ledger path.  The path must
/// name a file: there must be at least one character after the last `'/'`.
pub fn get_ec2_key_path(spec_file_path: &str) -> (r: String)
    requires
        spec_file_name(spec_file_path@).len() > 0,
    ensures
        r@ == spec_ec2_key_path(spec_file_path@),
{
    let n = spec_file_path.unicode_len();
    let sep: usize = match rfind_char(spec_file_path, '/') {
        Some(k) => k + 1,
        None => 0,
    };
    proof {
        assert(sep as int == last_index_of(spec_file_path@, '/') + 1);
        assert(spec_file_path@.subrange(sep as int, n as int) =~= spec_file_name(
            spec_file_path@,
        ));
    }
    let name = spec_file_path.substring_char(sep, n);
    let name_len = name.unicode_len();
    let stem_end: usize = match rfind_char(name, '.') {
        Some(k) => if k > 0 {
            k
        } else {
            name_len
        },
        None => name_len,
    };
    proof {
        let d = last_index_of(name@, '.');
        if d <= 0 {
            assert(name@.take(name@.len() as int) =~= name@);
        }
        assert(name@.subrange(0, stem_end as int) =~= spec_file_stem(name@));
        assert(spec_file_path@.subrange(0, sep as int) =~= spec_dir_prefix(spec_file_path@));
    }
    let mut r = String::from_str(spec_file_path.substring_char(0, sep));
    r.append(name.substring_char(0, stem_end));
    r.append("-ec2-access.key");
    r
}

} // verus!
