//! Processor state: a source-code string plus an ordered table of named
//! position links, and the versioned binary layout it is persisted in.
//!
//! The layout, in the fixed big-endian byte order of [`crate::wire`]:
//! one version byte that must be 1; a signed 32-bit code byte count that must
//! lie in `0 ..= 512000`; the code's UTF-8 bytes; a signed 32-bit link count
//! that must be non-negative; then per link a length-prefixed UTF-8 name of
//! at most 65535 bytes and two signed 16-bit offsets. Decoding aborts on the
//! first failed check and never yields partial state.
use vstd::prelude::*;

use vstd::utf8::{valid_utf8, decode_utf8, encode_utf8, encode_utf8_valid_utf8,
    encode_utf8_decode_utf8, decode_utf8_encode_utf8};
use crate::block::{DeserializeError, SerializeError, State};
use crate::data::{DataRead, DataWrite, ReadError, string_from_utf8};
use crate::dynamic::{DynData, DynType};
use crate::stream::inflate_of;
use crate::wire::{be16_bytes, be16_value, be32_bytes, be32_value, lemma_be16_roundtrip,
    lemma_be32_roundtrip, lemma_i16_carrier_roundtrip};

verus! {

/// The largest code a processor may carry, in UTF-8 bytes.
pub const MAX_CODE_BYTES: usize = 512000;

/// The largest link name, in UTF-8 bytes.
pub const MAX_NAME_BYTES: usize = 65535;

/// The mathematical value of a link: its name's characters and its offsets.
pub struct LinkView {
    pub name: Seq<char>,
    pub x: i16,
    pub y: i16,
}

/// The mathematical value of a processor state.
pub struct ProcessorView {
    pub code: Seq<char>,
    pub links: Seq<LinkView>,
}

/// A link name fits its length prefix.
pub open spec fn wf_link(l: LinkView) -> bool {
    encode_utf8(l.name).len() <= MAX_NAME_BYTES
}

/// The state fits the bounds of the binary layout.
pub open spec fn wf_state(v: ProcessorView) -> bool {
    &&& encode_utf8(v.code).len() <= MAX_CODE_BYTES
    &&& v.links.len() <= i32::MAX
    &&& forall|i: int| 0 <= i < v.links.len() ==> wf_link(#[trigger] v.links[i])
}

/// The views of a run of links.
pub open spec fn links_view(s: Seq<ProcessorLink>) -> Seq<LinkView> {
    s.map_values(|l: ProcessorLink| l@)
}

/// Appending a link appends its view.
proof fn lemma_links_view_push(s: Seq<ProcessorLink>, l: ProcessorLink)
    ensures
        links_view(s.push(l)) == links_view(s).push(l@),
{
    assert(links_view(s.push(l)) =~= links_view(s).push(l@));
}

/// Removing a link removes its view.
proof fn lemma_links_view_remove(s: Seq<ProcessorLink>, i: int)
    requires
        0 <= i < s.len(),
    ensures
        links_view(s.remove(i)) == links_view(s).remove(i),
{
    assert(links_view(s.remove(i)) =~= links_view(s).remove(i));
}

/// An immutable named link from a processor to a block at a relative offset.
/// Replaced wholesale, never edited in place.
#[derive(Debug, PartialEq, Eq)]
pub struct ProcessorLink {
    name: String,
    x: i16,
    y: i16,
}

impl View for ProcessorLink {
    type V = LinkView;

    closed spec fn view(&self) -> LinkView {
        LinkView { name: self.name@, x: self.x, y: self.y }
    }
}

impl Clone for ProcessorLink {
    fn clone(&self) -> (r: Self)
        ensures
            r@ == self@,
    {
        proof {
            use_type_invariant(self);
        }
        ProcessorLink { name: self.name.clone(), x: self.x, y: self.y }
    }
}

impl ProcessorLink {
    #[verifier::type_invariant]
    spec fn inv(self) -> bool {
        wf_link(self@)
    }

    /// Builds a link. The name must fit the format's 16-bit length prefix.
    pub fn new(name: String, x: i16, y: i16) -> (r: Self)
        requires
            encode_utf8(name@).len() <= MAX_NAME_BYTES,
        ensures
            r@ == (LinkView { name: name@, x, y }),
    {
        ProcessorLink { name, x, y }
    }

    /// The link's name.
    pub fn get_name(&self) -> (r: &str)
        ensures
            r@ == self@.name,
    {
        self.name.as_str()
    }

    /// The link's offsets.
    pub fn get_pos(&self) -> (r: (i16, i16))
        ensures
            r.0 == self@.x,
            r.1 == self@.y,
    {
        (self.x, self.y)
    }
}

/// Why a code update was rejected.
#[derive(Clone, Debug, Eq, PartialEq)]
pub enum CodeError {
    /// The new code's byte count, which is over the format's limit.
    TooLong(usize),
}

/// Why a link could not be created.
#[derive(Clone, Debug, Eq, PartialEq)]
pub enum CreateError {
    /// The name's byte count, which is over the format's limit.
    NameLength(usize),
    /// Another link already carries this name.
    DuplicateName(String),
    /// The named pre-existing link already points at this offset.
    DuplicatePos { name: String, x: i16, y: i16 },
}

/// True when the link at hand blocks inserting a link named `name` at
/// `(x, y)`: the scan that create_link makes stops at the first such link.
pub open spec fn clashes(l: LinkView, name: Seq<char>, x: i16, y: i16) -> bool {
    l.name == name || (l.x == x && l.y == y)
}

/// No link in the table blocks inserting a link named `name` at `(x, y)`.
pub open spec fn no_clash(links: Seq<LinkView>, name: Seq<char>, x: i16, y: i16) -> bool {
    forall|j: int| 0 <= j < links.len() ==> !clashes(#[trigger] links[j], name, x, y)
}

/// The first link that blocks inserting a link named `name` at `(x, y)`
/// carries that same name.
pub open spec fn name_clash_first(links: Seq<LinkView>, name: Seq<char>, x: i16, y: i16) -> bool {
    exists|i: int|
        {
            &&& 0 <= i < links.len()
            &&& (#[trigger] links[i]).name == name
            &&& forall|j: int| 0 <= j < i ==> !clashes(#[trigger] links[j], name, x, y)
        }
}

/// The first link that blocks inserting a link named `name` at `(x, y)` sits
/// at that same offset under the different name `pn`.
pub open spec fn pos_clash_first(
    links: Seq<LinkView>,
    name: Seq<char>,
    x: i16,
    y: i16,
    pn: Seq<char>,
) -> bool {
    exists|i: int|
        {
            &&& 0 <= i < links.len()
            &&& (#[trigger] links[i]).x == x
            &&& links[i].y == y
            &&& links[i].name != name
            &&& pn == links[i].name
            &&& forall|j: int| 0 <= j < i ==> !clashes(#[trigger] links[j], name, x, y)
        }
}

/// The code a processor carries, always within the format's byte limit.
#[derive(Debug, PartialEq, Eq)]
struct SourceCode {
    text: String,
}

impl SourceCode {
    #[verifier::type_invariant]
    spec fn inv(self) -> bool {
        encode_utf8(self.text@).len() <= MAX_CODE_BYTES
    }
}

impl Clone for SourceCode {
    fn clone(&self) -> (r: Self)
        ensures
            r == *self,
    {
        proof {
            use_type_invariant(self);
        }
        let r = SourceCode { text: self.text.clone() };
        assert(r == *self);
        r
    }
}

/// A processor's owned state: source code and its ordered link table. The
/// link order is semantically meaningful and is preserved by the codec.
#[derive(Debug, PartialEq, Eq)]
pub struct ProcessorState {
    code: SourceCode,
    links: Vec<ProcessorLink>,
}

impl View for ProcessorState {
    type V = ProcessorView;

    closed spec fn view(&self) -> ProcessorView {
        ProcessorView { code: self.code.text@, links: links_view(self.links@) }
    }
}

impl Clone for ProcessorState {
    fn clone(&self) -> (r: Self)
        ensures
            r@ == self@,
    {
        let mut links: Vec<ProcessorLink> = Vec::new();
        let mut i: usize = 0;
        assert(links_view(links@) =~= links_view(self.links@).take(0));
        while i < self.links.len()
            invariant
                i <= self.links@.len(),
                links@.len() == i,
                links_view(links@) == links_view(self.links@).take(i as int),
            decreases self.links@.len() - i,
        {
            let l = self.links[i].clone();
            let ghost before = links@;
            links.push(l);
            i = i + 1;
            proof {
                lemma_links_view_push(before, l);
                assert(l@ == links_view(self.links@)[i - 1]);
                assert(links_view(self.links@).take(i - 1).push(links_view(self.links@)[i - 1])
                    =~= links_view(self.links@).take(i as int));
            }
        }
        assert(links_view(self.links@).take(self.links@.len() as int) =~= links_view(self.links@));
        ProcessorState { code: self.code.clone(), links }
    }
}

impl ProcessorState {
    /// A processor with no code and no links.
    pub fn new() -> (r: Self)
        ensures
            r@.code == Seq::<char>::empty(),
            r@.links == Seq::<LinkView>::empty(),
    {
        let text = String::new();
        assert(encode_utf8(text@) =~= Seq::<u8>::empty());
        let r = ProcessorState { code: SourceCode { text }, links: Vec::new() };
        proof {
            assert(links_view(r.links@) =~= Seq::<LinkView>::empty());
        }
        r
    }

    /// The source code.
    pub fn get_code(&self) -> (r: &str)
        ensures
            r@ == self@.code,
    {
        self.code.text.as_str()
    }

    /// Replaces the source code. Code over the byte limit is rejected and the
    /// state left unchanged.
    pub fn set_code(&mut self, code: &str) -> (r: Result<(), CodeError>)
        ensures
            match r {
                Ok(()) => encode_utf8(code@).len() <= MAX_CODE_BYTES && final(self)@.code == code@
                    && final(self)@.links == old(self)@.links,
                Err(CodeError::TooLong(n)) => n == encode_utf8(code@).len() && n > MAX_CODE_BYTES
                    && *final(self) == *old(self),
            },
    {
        let n = code.as_bytes().len();
        if n > MAX_CODE_BYTES {
            return Err(CodeError::TooLong(n));
        }
        self.code = SourceCode { text: code.to_owned() };
        Ok(())
    }

    /// The link table, in link order.
    pub fn get_links(&self) -> (r: &[ProcessorLink])
        ensures
            links_view(r@) == self@.links,
    {
        self.links.as_slice()
    }

    /// Creates a link, keeping the table's invariants: no duplicate name and
    /// no duplicate offset. A rejected insertion leaves the state unchanged
    /// and says what blocked it; the offset conflict names the pre-existing
    /// link. On success the created link is returned and appended to the
    /// table's end.
    pub fn create_link(&mut self, name: String, x: i16, y: i16) -> (r: Result<
        ProcessorLink,
        CreateError,
    >)
        ensures
            r is Ok ==> encode_utf8(name@).len() <= MAX_NAME_BYTES && no_clash(
                old(self)@.links,
                name@,
                x,
                y,
            ),
            r matches Ok(l) ==> l@ == (LinkView { name: name@, x, y }) && final(self)@.links == old(
                self,
            )@.links.push(l@) && final(self)@.code == old(self)@.code,
            r is Err ==> *final(self) == *old(self),
            r matches Err(CreateError::NameLength(n)) ==> n == encode_utf8(name@).len() && n
                > MAX_NAME_BYTES,
            r matches Err(CreateError::DuplicateName(dn)) ==> dn@ == name@ && encode_utf8(
                name@,
            ).len() <= MAX_NAME_BYTES && name_clash_first(old(self)@.links, name@, x, y),
            r matches Err(CreateError::DuplicatePos { name: pn, x: px, y: py }) ==> px == x && py
                == y && encode_utf8(name@).len() <= MAX_NAME_BYTES && pos_clash_first(
                old(self)@.links,
                name@,
                x,
                y,
                pn@,
            ),
    {
        let name_bytes = name.as_str().as_bytes().len();
        if name_bytes > MAX_NAME_BYTES {
            return Err(CreateError::NameLength(name_bytes));
        }
        let mut i: usize = 0;
        while i < self.links.len()
            invariant
                i <= self.links@.len(),
                encode_utf8(name@).len() <= MAX_NAME_BYTES,
                forall|j: int| 0 <= j < i ==> !clashes(
                    #[trigger] links_view(self.links@)[j],
                    name@,
                    x,
                    y,
                ),
                self == old(self),
            decreases self.links@.len() - i,
        {
            let curr = &self.links[i];
            if name == curr.name {
                proof {
                    assert(links_view(self.links@)[i as int] == curr@);
                    assert(name_clash_first(links_view(self.links@), name@, x, y));
                }
                return Err(CreateError::DuplicateName(name));
            }
            if x == curr.x && y == curr.y {
                proof {
                    use_type_invariant(curr);
                    assert(links_view(self.links@)[i as int] == curr@);
                }
                let dup = CreateError::DuplicatePos { name: curr.name.clone(), x, y };
                proof {
                    assert(pos_clash_first(links_view(self.links@), name@, x, y, curr.name@));
                }
                return Err(dup);
            }
            i = i + 1;
        }
        let created = ProcessorLink { name, x, y };
        let copy = created.clone();
        let ghost before = self.links@;
        self.links.push(created);
        proof {
            lemma_links_view_push(before, copy);
        }
        Ok(copy)
    }

    /// Creates a link from an already-built link value, under the same rules
    /// as [`Self::create_link`].
    pub fn add_link(&mut self, link: ProcessorLink) -> (r: Result<ProcessorLink, CreateError>)
        ensures
            r is Ok ==> no_clash(old(self)@.links, link@.name, link@.x, link@.y),
            r matches Ok(l) ==> l@ == link@ && final(self)@.links == old(self)@.links.push(link@)
                && final(self)@.code == old(self)@.code,
            r is Err ==> *final(self) == *old(self),
            r matches Err(CreateError::NameLength(n)) ==> false,
            r matches Err(CreateError::DuplicateName(dn)) ==> dn@ == link@.name
                && name_clash_first(old(self)@.links, link@.name, link@.x, link@.y),
            r matches Err(CreateError::DuplicatePos { name: pn, x: px, y: py }) ==> px == link@.x
                && py == link@.y && pos_clash_first(
                old(self)@.links,
                link@.name,
                link@.x,
                link@.y,
                pn@,
            ),
    {
        proof {
            use_type_invariant(&link);
        }
        let ProcessorLink { name, x, y } = link;
        self.create_link(name, x, y)
    }

    /// Removes and returns the link at an index; an index past the table is a
    /// recoverable miss that changes nothing.
    pub fn remove_link(&mut self, idx: usize) -> (r: Option<ProcessorLink>)
        ensures
            match r {
                Some(l) => idx < old(self)@.links.len() && l@ == old(self)@.links[idx as int]
                    && final(self)@.links == old(self)@.links.remove(idx as int) && final(self)@.code == old(self)@.code,
                None => idx >= old(self)@.links.len() && *final(self) == *old(self),
            },
    {
        if idx < self.links.len() {
            let ghost before = self.links@;
            let l = self.links.remove(idx);
            proof {
                lemma_links_view_remove(before, idx as int);
                assert(l@ == links_view(before)[idx as int]);
            }
            Some(l)
        } else {
            None
        }
    }
}

/// The wire form of one length-prefixed string.
pub open spec fn utf_bytes(s: Seq<char>) -> Seq<u8> {
    be16_bytes(encode_utf8(s).len() as u16) + encode_utf8(s)
}

/// The wire form of one link.
pub open spec fn link_bytes(l: LinkView) -> Seq<u8> {
    utf_bytes(l.name) + be16_bytes(l.x as u16) + be16_bytes(l.y as u16)
}

/// The wire form of a run of links, in link order.
pub open spec fn links_bytes(ls: Seq<LinkView>) -> Seq<u8>
    decreases ls.len(),
{
    if ls.len() == 0 {
        Seq::<u8>::empty()
    } else {
        link_bytes(ls[0]) + links_bytes(ls.drop_first())
    }
}

/// The layout's head: version, code byte count, code, link count.
pub open spec fn state_head_bytes(v: ProcessorView) -> Seq<u8> {
    seq![1u8] + be32_bytes(encode_utf8(v.code).len() as u32) + encode_utf8(v.code) + be32_bytes(
        v.links.len() as u32,
    )
}

/// The whole layout of a processor state.
pub open spec fn state_bytes(v: ProcessorView) -> Seq<u8> {
    state_head_bytes(v) + links_bytes(v.links)
}

/// What parsing the link run yields: the links and the end position, or the
/// first failure.
pub enum LinksOutcome {
    Links(Seq<LinkView>, int),
    Short,
    BadName,
}

/// What parsing a whole layout yields: the state, or the first failure, which
/// names what the matching decode error carries.
pub enum ParseOutcome {
    Parsed(ProcessorView),
    Truncated,
    BadVersion(u8),
    BadCodeLength(i32),
    BadCodeUtf8,
    BadLinkCount(i32),
    BadNameUtf8,
}

/// Prefixes already-parsed links onto a link-run outcome.
pub open spec fn prepend_links(pre: Seq<LinkView>, o: LinksOutcome) -> LinksOutcome {
    match o {
        LinksOutcome::Links(ls, end) => LinksOutcome::Links(pre + ls, end),
        other => other,
    }
}

/// Parses `n` links from `b` starting at `pos`, each a length-prefixed UTF-8
/// name and two big-endian 16-bit offsets, failing on the first truncated or
/// badly encoded entry.
pub open spec fn parse_links(b: Seq<u8>, pos: int, n: int) -> LinksOutcome
    decreases n,
{
    if n <= 0 {
        LinksOutcome::Links(Seq::<LinkView>::empty(), pos)
    } else if pos + 2 > b.len() {
        LinksOutcome::Short
    } else {
        let m = be16_value(b[pos], b[pos + 1]) as int;
        if pos + 2 + m > b.len() {
            LinksOutcome::Short
        } else {
            let body = b.subrange(pos + 2, pos + 2 + m);
            if !valid_utf8(body) {
                LinksOutcome::BadName
            } else if pos + 2 + m + 4 > b.len() {
                LinksOutcome::Short
            } else {
                let x = be16_value(b[pos + 2 + m], b[pos + 2 + m + 1]) as i16;
                let y = be16_value(b[pos + 2 + m + 2], b[pos + 2 + m + 3]) as i16;
                let l = LinkView { name: decode_utf8(body), x, y };
                prepend_links(seq![l], parse_links(b, pos + 2 + m + 4, n - 1))
            }
        }
    }
}

/// Parses a whole layout: version, bounded code length, UTF-8 code, link
/// count, then the link run. The first failed check decides the outcome and
/// no partial state is ever produced.
pub open spec fn parse_state(b: Seq<u8>) -> ParseOutcome {
    if b.len() < 1 {
        ParseOutcome::Truncated
    } else if b[0] != 1 {
        ParseOutcome::BadVersion(b[0])
    } else if b.len() < 5 {
        ParseOutcome::Truncated
    } else {
        let clen = be32_value(b[1], b[2], b[3], b[4]) as i32;
        if clen < 0 || clen > MAX_CODE_BYTES {
            ParseOutcome::BadCodeLength(clen)
        } else if 5 + clen > b.len() {
            ParseOutcome::Truncated
        } else {
            let body = b.subrange(5, 5 + clen);
            if !valid_utf8(body) {
                ParseOutcome::BadCodeUtf8
            } else if 5 + clen + 4 > b.len() {
                ParseOutcome::Truncated
            } else {
                let cnt = be32_value(
                    b[5 + clen],
                    b[5 + clen + 1],
                    b[5 + clen + 2],
                    b[5 + clen + 3],
                ) as i32;
                if cnt < 0 {
                    ParseOutcome::BadLinkCount(cnt)
                } else {
                    match parse_links(b, 9 + clen, cnt as int) {
                        LinksOutcome::Links(ls, _) => ParseOutcome::Parsed(
                            ProcessorView { code: decode_utf8(body), links: ls },
                        ),
                        LinksOutcome::Short => ParseOutcome::Truncated,
                        LinksOutcome::BadName => ParseOutcome::BadNameUtf8,
                    }
                }
            }
        }
    }
}

/// Why decoding a persisted processor state failed; every lower-layer failure
/// keeps its original cause.
#[derive(Debug)]
pub enum ProcessorDeserializeError {
    /// A primitive read failed: the layout was truncated or a link name held
    /// invalid text.
    Read(ReadError),
    /// The decompression stream reported an error.
    Decompress(flate2::DecompressError),
    /// The decompressor made no progress before the stream's end.
    DecompressStall,
    /// The code bytes were not valid UTF-8.
    FromUtf8,
    /// An unsupported layout version.
    Version(u8),
    /// A code length outside `0 ..= 512000`.
    CodeLength(i32),
    /// A negative link count.
    LinkCount(i32),
}

/// Why encoding a processor state failed; every lower-layer failure keeps
/// its original cause.
#[derive(Debug)]
pub enum ProcessorSerializeError {
    /// The compression stream reported an error.
    Compress(flate2::CompressError),
    /// The compressor made no progress before the stream's end. The guard
    /// mirrors the decompression side's; the compression contracts prove it
    /// is never taken, so this is never produced.
    CompressStall,
}

/// Appending a link appends its wire form.
proof fn lemma_links_bytes_push(s: Seq<LinkView>, l: LinkView)
    ensures
        links_bytes(s.push(l)) == links_bytes(s) + link_bytes(l),
    decreases s.len(),
{
    if s.len() == 0 {
        assert(s.push(l).drop_first() =~= s);
        assert(links_bytes(s.push(l)) =~= links_bytes(s) + link_bytes(l));
    } else {
        assert(s.push(l).drop_first() =~= s.drop_first().push(l));
        lemma_links_bytes_push(s.drop_first(), l);
        assert(links_bytes(s.push(l)) =~= links_bytes(s) + link_bytes(l));
    }
}

/// Writes the binary layout of a state, exactly as [`state_bytes`] gives it.
/// The bounds the layout needs hold of every reachable state but for the link
/// count, which the caller vouches for as the in-memory form can outgrow it.
pub fn write_processor_state(state: &ProcessorState) -> (out: Vec<u8>)
    requires
        state@.links.len() <= i32::MAX,
    ensures
        out@ == state_bytes(state@),
{
    proof {
        use_type_invariant(&state.code);
    }
    let mut w = DataWrite::new();
    w.write_u8(1);
    let code_bytes: &[u8] = state.code.text.as_str().as_bytes();
    let clen = code_bytes.len();
    w.write_i32(clen as i32);
    w.write_bytes(code_bytes);
    let n = state.links.len();
    w.write_i32(n as i32);
    proof {
        assert((clen as i32) as u32 == encode_utf8(state@.code).len() as u32);
        assert((n as i32) as u32 == state@.links.len() as u32);
        assert(w.written() =~= state_head_bytes(state@));
        assert(state@.links.take(0) =~= Seq::<LinkView>::empty());
    }
    let mut i: usize = 0;
    while i < n
        invariant
            i <= n,
            n == state@.links.len(),
            w.written() == state_head_bytes(state@) + links_bytes(state@.links.take(i as int)),
        decreases n - i,
    {
        let l = &state.links[i];
        proof {
            use_type_invariant(l);
            assert(l@ == state@.links[i as int]);
        }
        w.write_utf(l.name.as_str());
        w.write_i16(l.x);
        w.write_i16(l.y);
        proof {
            lemma_links_bytes_push(state@.links.take(i as int), state@.links[i as int]);
            assert(state@.links.take(i as int).push(state@.links[i as int]) =~= state@.links.take(
                i + 1,
            ));
            assert(w.written() =~= state_head_bytes(state@) + links_bytes(
                state@.links.take(i + 1),
            ));
        }
        i = i + 1;
    }
    proof {
        assert(state@.links.take(n as int) =~= state@.links);
    }
    w.into_data()
}

/// Parses the binary layout of a state. The result mirrors [`parse_state`]
/// exactly: it succeeds if and only if the layout is whole and within bounds,
/// and each failure carries what the first failed check saw.
pub fn parse_processor_state(raw: &[u8]) -> (r: Result<ProcessorState, ProcessorDeserializeError>)
    ensures
        match r {
            Ok(st) => parse_state(raw@) == ParseOutcome::Parsed(st@) && wf_state(st@),
            Err(e) => match e {
                ProcessorDeserializeError::Read(ReadError::Underflow) => parse_state(raw@)
                    == ParseOutcome::Truncated,
                ProcessorDeserializeError::Read(ReadError::Utf8) => parse_state(raw@)
                    == ParseOutcome::BadNameUtf8,
                ProcessorDeserializeError::FromUtf8 => parse_state(raw@)
                    == ParseOutcome::BadCodeUtf8,
                ProcessorDeserializeError::Version(v) => parse_state(raw@)
                    == ParseOutcome::BadVersion(v),
                ProcessorDeserializeError::CodeLength(c) => parse_state(raw@)
                    == ParseOutcome::BadCodeLength(c),
                ProcessorDeserializeError::LinkCount(c) => parse_state(raw@)
                    == ParseOutcome::BadLinkCount(c),
                ProcessorDeserializeError::Decompress(_) => false,
                ProcessorDeserializeError::DecompressStall => false,
            },
        },
{
    let mut buff = DataRead::new(raw);
    let ver = match buff.read_u8() {
        Ok(v) => v,
        Err(e) => {
            return Err(ProcessorDeserializeError::Read(e));
        },
    };
    if ver != 1 {
        return Err(ProcessorDeserializeError::Version(ver));
    }
    let code_len = match buff.read_i32() {
        Ok(v) => v,
        Err(e) => {
            return Err(ProcessorDeserializeError::Read(e));
        },
    };
    if code_len < 0 || code_len > MAX_CODE_BYTES as i32 {
        return Err(ProcessorDeserializeError::CodeLength(code_len));
    }
    let code_vec = match buff.read_bytes(code_len as usize) {
        Ok(v) => v,
        Err(e) => {
            return Err(ProcessorDeserializeError::Read(e));
        },
    };
    let ghost body = raw@.subrange(5, 5 + code_len as int);
    let code = match string_from_utf8(code_vec) {
        Some(s) => s,
        None => {
            return Err(ProcessorDeserializeError::FromUtf8);
        },
    };
    let link_count = match buff.read_i32() {
        Ok(v) => v,
        Err(e) => {
            return Err(ProcessorDeserializeError::Read(e));
        },
    };
    if link_count < 0 {
        return Err(ProcessorDeserializeError::LinkCount(link_count));
    }
    proof {
        decode_utf8_encode_utf8(body);
    }
    let n = link_count as usize;
    let ghost pos0 = buff.position();
    let ghost bridge = parse_links(raw@, pos0, n as int);
    assert(parse_state(raw@) == (match bridge {
        LinksOutcome::Links(ls, _) => ParseOutcome::Parsed(
            ProcessorView { code: code@, links: ls },
        ),
        LinksOutcome::Short => ParseOutcome::Truncated,
        LinksOutcome::BadName => ParseOutcome::BadNameUtf8,
    }));
    let mut links: Vec<ProcessorLink> = Vec::new();
    let mut i: usize = 0;
    proof {
        assert(prepend_links(links_view(links@), parse_links(raw@, buff.position(), n as int))
            == bridge);
    }
    while i < n
        invariant
            i <= n,
            buff.bytes() == raw@,
            0 <= buff.position() <= raw@.len(),
            links@.len() == i,
            bridge == parse_links(raw@, pos0, n as int),
            parse_state(raw@) == (match bridge {
                LinksOutcome::Links(ls, _) => ParseOutcome::Parsed(
                    ProcessorView { code: code@, links: ls },
                ),
                LinksOutcome::Short => ParseOutcome::Truncated,
                LinksOutcome::BadName => ParseOutcome::BadNameUtf8,
            }),
            prepend_links(links_view(links@), parse_links(raw@, buff.position(), (n - i) as int))
                == bridge,
            forall|k: int| 0 <= k < i ==> wf_link(#[trigger] links_view(links@)[k]),
        decreases n - i,
    {
        let ghost pos = buff.position();
        let ghost here = parse_links(raw@, pos, (n - i) as int);
        let name = match buff.read_utf() {
            Ok(s) => s,
            Err(e) => {
                assert(here == LinksOutcome::Short || here == LinksOutcome::BadName);
                return Err(ProcessorDeserializeError::Read(e));
            },
        };
        let x = match buff.read_i16() {
            Ok(v) => v,
            Err(e) => {
                assert(here == LinksOutcome::Short);
                return Err(ProcessorDeserializeError::Read(e));
            },
        };
        let y = match buff.read_i16() {
            Ok(v) => v,
            Err(e) => {
                assert(here == LinksOutcome::Short);
                return Err(ProcessorDeserializeError::Read(e));
            },
        };
        let ghost m = be16_value(raw@[pos], raw@[pos + 1]) as int;
        let ghost name_body = raw@.subrange(pos + 2, pos + 2 + m);
        proof {
            assert(valid_utf8(name_body));
            assert(name@ == decode_utf8(name_body));
            decode_utf8_encode_utf8(name_body);
            assert(encode_utf8(name@) == name_body);
            assert(m <= 65535);
            assert(pos + 2 + m <= raw@.len());
            assert(name_body.len() == m);
            assert(wf_link(LinkView { name: name@, x, y }));
        }
        let link = ProcessorLink { name, x, y };
        let ghost before = links@;
        links.push(link);
        proof {
            lemma_links_view_push(before, link);
            assert(here == prepend_links(
                seq![link@],
                parse_links(raw@, buff.position(), (n - i - 1) as int),
            ));
            lemma_prepend_links_assoc(
                links_view(before),
                seq![link@],
                parse_links(raw@, buff.position(), (n - i - 1) as int),
            );
            assert(links_view(before) + seq![link@] =~= links_view(links@));
        }
        i = i + 1;
    }
    proof {
        assert(parse_links(raw@, buff.position(), 0) == LinksOutcome::Links(
            Seq::<LinkView>::empty(),
            buff.position(),
        ));
        assert(links_view(links@) + Seq::<LinkView>::empty() =~= links_view(links@));
    }
    let st = ProcessorState { code: SourceCode { text: code }, links };
    proof {
        assert(st@.links =~= links_view(links@));
    }
    Ok(st)
}

/// Prefixing parsed links associates over concatenation.
proof fn lemma_prepend_links_assoc(a: Seq<LinkView>, b: Seq<LinkView>, o: LinksOutcome)
    ensures
        prepend_links(a, prepend_links(b, o)) == prepend_links(a + b, o),
{
    match o {
        LinksOutcome::Links(ls, end) => {
            assert(a + (b + ls) =~= (a + b) + ls);
        },
        _ => {},
    }
}

/// A link run written by [`links_bytes`] parses back to exactly those links.
proof fn lemma_parse_links_of_bytes(b: Seq<u8>, pos: int, ls: Seq<LinkView>)
    requires
        0 <= pos,
        pos + links_bytes(ls).len() <= b.len(),
        b.subrange(pos, pos + links_bytes(ls).len()) == links_bytes(ls),
        forall|k: int| 0 <= k < ls.len() ==> wf_link(#[trigger] ls[k]),
    ensures
        parse_links(b, pos, ls.len() as int) == LinksOutcome::Links(
            ls,
            pos + links_bytes(ls).len(),
        ),
    decreases ls.len(),
{
    if ls.len() == 0 {
        assert(ls =~= Seq::<LinkView>::empty());
    } else {
        let l = ls[0];
        assert(wf_link(l));
        let name_len = encode_utf8(l.name).len() as int;
        let lb = link_bytes(l);
        let rest = ls.drop_first();
        let total = links_bytes(ls).len() as int;
        assert(links_bytes(ls) == lb + links_bytes(rest));
        let all = b.subrange(pos, pos + total);
        assert(all == links_bytes(ls));
        assert(lb =~= be16_bytes(name_len as u16) + encode_utf8(l.name) + be16_bytes(l.x as u16)
            + be16_bytes(l.y as u16));
        assert(lb.len() == 2 + name_len + 4);
        lemma_be16_roundtrip(name_len as u16);
        assert(b[pos] == all[0] && all[0] == lb[0] && lb[0] == be16_bytes(name_len as u16)[0]);
        assert(b[pos + 1] == all[1] && all[1] == lb[1] && lb[1] == be16_bytes(
            name_len as u16,
        )[1]);
        assert(be16_value(b[pos], b[pos + 1]) == name_len as u16);
        let m = be16_value(b[pos], b[pos + 1]) as int;
        assert(m == name_len);
        assert forall|j: int| 0 <= j < m implies b[pos + 2 + j] == encode_utf8(l.name)[j] by {
            assert(b[pos + 2 + j] == all[2 + j]);
            assert(all[2 + j] == lb[2 + j]);
            assert(lb[2 + j] == encode_utf8(l.name)[j]);
        }
        assert(b.subrange(pos + 2, pos + 2 + m) =~= encode_utf8(l.name));
        encode_utf8_valid_utf8(l.name);
        encode_utf8_decode_utf8(l.name);
        lemma_be16_roundtrip(l.x as u16);
        lemma_be16_roundtrip(l.y as u16);
        lemma_i16_carrier_roundtrip(l.x);
        lemma_i16_carrier_roundtrip(l.y);
        assert(b[pos + 2 + m] == all[2 + m] && all[2 + m] == lb[2 + m] && lb[2 + m]
            == be16_bytes(l.x as u16)[0]);
        assert(b[pos + 2 + m + 1] == all[2 + m + 1] && all[2 + m + 1] == lb[2 + m + 1] && lb[2 + m
            + 1] == be16_bytes(l.x as u16)[1]);
        assert(b[pos + 2 + m + 2] == all[2 + m + 2] && all[2 + m + 2] == lb[2 + m + 2] && lb[2 + m
            + 2] == be16_bytes(l.y as u16)[0]);
        assert(b[pos + 2 + m + 3] == all[2 + m + 3] && all[2 + m + 3] == lb[2 + m + 3] && lb[2 + m
            + 3] == be16_bytes(l.y as u16)[1]);
        assert(be16_value(b[pos + 2 + m], b[pos + 2 + m + 1]) as i16 == l.x);
        assert(be16_value(b[pos + 2 + m + 2], b[pos + 2 + m + 3]) as i16 == l.y);
        let pos2 = pos + 2 + m + 4;
        assert forall|j: int| 0 <= j < links_bytes(rest).len() implies b[pos2 + j] == links_bytes(
            rest,
        )[j] by {
            assert(b[pos2 + j] == all[lb.len() + j]);
            assert(all[lb.len() + j] == links_bytes(rest)[j]);
        }
        assert(b.subrange(pos2, pos2 + links_bytes(rest).len()) =~= links_bytes(rest));
        lemma_parse_links_of_bytes(b, pos2, rest);
        assert(seq![l] + rest =~= ls);
        assert(parse_links(b, pos, ls.len() as int) == prepend_links(
            seq![l],
            LinksOutcome::Links(rest, pos2 + links_bytes(rest).len() as int),
        ));
    }
}

/// The round trip of the layout: a well-formed state writes to bytes that
/// parse back to exactly that state, exact code and order-preserving links.
/// Together with the codec contracts this gives the whole chain: encode,
/// compress, decompress, decode reproduces an equal processor state.
pub proof fn lemma_state_round_trip(v: ProcessorView)
    requires
        wf_state(v),
    ensures
        parse_state(state_bytes(v)) == ParseOutcome::Parsed(v),
{
    let b = state_bytes(v);
    let clen = encode_utf8(v.code).len() as int;
    let head = state_head_bytes(v);
    assert(head.len() == 9 + clen);
    assert(forall|k: int| 0 <= k < b.len() ==> b[k] == #[trigger] state_bytes(v)[k]);
    assert(b[0] == 1u8);
    lemma_be32_roundtrip(clen as u32);
    assert(b[1] == be32_bytes(clen as u32)[0]);
    assert(b[2] == be32_bytes(clen as u32)[1]);
    assert(b[3] == be32_bytes(clen as u32)[2]);
    assert(b[4] == be32_bytes(clen as u32)[3]);
    assert(be32_value(b[1], b[2], b[3], b[4]) == clen as u32);
    assert(be32_value(b[1], b[2], b[3], b[4]) as i32 == clen);
    assert(b.subrange(5, 5 + clen) =~= encode_utf8(v.code));
    encode_utf8_valid_utf8(v.code);
    encode_utf8_decode_utf8(v.code);
    let cnt = v.links.len() as int;
    lemma_be32_roundtrip(cnt as u32);
    assert(b[5 + clen] == be32_bytes(cnt as u32)[0]);
    assert(b[5 + clen + 1] == be32_bytes(cnt as u32)[1]);
    assert(b[5 + clen + 2] == be32_bytes(cnt as u32)[2]);
    assert(b[5 + clen + 3] == be32_bytes(cnt as u32)[3]);
    assert(be32_value(b[5 + clen], b[5 + clen + 1], b[5 + clen + 2], b[5 + clen + 3]) as i32
        == cnt);
    assert(b.subrange(9 + clen, 9 + clen + links_bytes(v.links).len()) =~= links_bytes(v.links));
    lemma_parse_links_of_bytes(b, 9 + clen, v.links);
    assert(parse_state(b) == ParseOutcome::Parsed(ProcessorView { code: v.code, links: v.links }));
    assert(ProcessorView { code: v.code, links: v.links } == v);
}

/// The round trip of the whole codec: encode, compress, decompress, decode
/// reproduces an equal processor state. For any well-formed state, any byte
/// array that encoding may return (one complete stream whose decoding is the
/// state's layout, by [`processor_encodes`]) decodes under
/// [`processor_decodes`] only to that same state: exact code, exact offsets,
/// order-preserving links.
pub proof fn lemma_processor_round_trip(v: ProcessorView, blob: Seq<u8>, st: ProcessorView)
    requires
        wf_state(v),
        inflate_of(blob) == Some(state_bytes(v)),
        inflate_of(blob) matches Some(raw) && parse_state(raw) == ParseOutcome::Parsed(st),
    ensures
        st == v,
{
    lemma_state_round_trip(v);
}

/// A sign: its state is the message text.
pub struct MessageLogic;

/// Exactly what decoding a message configuration yields: the empty and
/// absent-string variants both normalize to empty text, present text is taken
/// as is, and any other variant is a type mismatch.
pub open spec fn message_decodes(data: DynData, r: Result<Option<State>, DeserializeError>) -> bool {
    match data {
        DynData::Empty => r matches Ok(Some(State::Message(s))) && s@ == Seq::<char>::empty(),
        DynData::String(os) => match os {
            None => r matches Ok(Some(State::Message(s))) && s@ == Seq::<char>::empty(),
            Some(text) => r matches Ok(Some(State::Message(s))) && s@ == text@,
        },
        _ => r == Err::<Option<State>, DeserializeError>(
            DeserializeError::InvalidType { have: data.spec_get_type(), expect: DynType::String },
        ),
    }
}

/// Exactly what encoding a message state yields: the present-string variant
/// carrying the text.
pub open spec fn message_encodes(text: Seq<char>, r: Result<DynData, SerializeError>) -> bool {
    r matches Ok(d) && d matches DynData::String(os) && os matches Some(s) && s@ == text
}

impl MessageLogic {
    /// The footprint.
    pub fn get_size(&self) -> (r: u8)
        ensures
            r == 1,
    {
        1
    }

    /// Rotation does not change a sign.
    pub fn is_symmetric(&self) -> (r: bool)
        ensures
            r,
    {
        true
    }

    /// The default configuration: none.
    pub fn data_from_i32(&self, _config: i32) -> (r: DynData)
        ensures
            r == DynData::Empty,
    {
        DynData::Empty
    }

    /// Decodes a persisted configuration into message text, exactly as
    /// [`message_decodes`] lays out.
    pub fn deserialize_state(&self, data: DynData) -> (r: Result<Option<State>, DeserializeError>)
        ensures
            message_decodes(data, r),
    {
        match data {
            DynData::Empty => Ok(Some(State::Message(String::new()))),
            DynData::String(None) => Ok(Some(State::Message(String::new()))),
            DynData::String(Some(s)) => Ok(Some(State::Message(s))),
            other => Err(
                DeserializeError::InvalidType { have: other.get_type(), expect: DynType::String },
            ),
        }
    }

    /// Encodes message text, exactly as [`message_encodes`] lays out. The
    /// state must be a message; pairing state with its owning kind is the
    /// caller's charge.
    pub fn serialize_state(&self, state: &State) -> (r: Result<DynData, SerializeError>)
        requires
            state is Message,
        ensures
            message_encodes(state->Message_0@, r),
    {
        match state {
            State::Message(s) => Ok(DynData::String(Some(s.clone()))),
            // unreachable under the requires
            _ => Ok(DynData::Empty),
        }
    }
}

/// A switch: its state is one flag, on by default.
pub struct SwitchLogic;

/// Exactly what decoding a switch configuration yields: empty means enabled,
/// a boolean carries the flag, and any other variant is a type mismatch
/// carrying the observed and the expected type.
pub open spec fn switch_decodes(data: DynData, r: Result<Option<State>, DeserializeError>) -> bool {
    match data {
        DynData::Empty => r == Ok::<Option<State>, DeserializeError>(
            Some(State::Switch(true)),
        ),
        DynData::Boolean(enabled) => r == Ok::<Option<State>, DeserializeError>(
            Some(State::Switch(enabled)),
        ),
        _ => r == Err::<Option<State>, DeserializeError>(
            DeserializeError::InvalidType { have: data.spec_get_type(), expect: DynType::Boolean },
        ),
    }
}

/// Exactly what encoding a switch state yields: the boolean variant carrying
/// the flag.
pub open spec fn switch_encodes(enabled: bool, r: Result<DynData, SerializeError>) -> bool {
    r == Ok::<DynData, SerializeError>(DynData::Boolean(enabled))
}

impl SwitchLogic {
    /// The footprint.
    pub fn get_size(&self) -> (r: u8)
        ensures
            r == 1,
    {
        1
    }

    /// Rotation does not change a switch.
    pub fn is_symmetric(&self) -> (r: bool)
        ensures
            r,
    {
        true
    }

    /// The default configuration: none.
    pub fn data_from_i32(&self, _config: i32) -> (r: DynData)
        ensures
            r == DynData::Empty,
    {
        DynData::Empty
    }

    /// Decodes a persisted configuration into the flag, exactly as
    /// [`switch_decodes`] lays out.
    pub fn deserialize_state(&self, data: DynData) -> (r: Result<Option<State>, DeserializeError>)
        ensures
            switch_decodes(data, r),
    {
        match data {
            DynData::Empty => Ok(Some(State::Switch(true))),
            DynData::Boolean(enabled) => Ok(Some(State::Switch(enabled))),
            other => Err(
                DeserializeError::InvalidType { have: other.get_type(), expect: DynType::Boolean },
            ),
        }
    }

    /// Encodes the flag, exactly as [`switch_encodes`] lays out. The state
    /// must be a switch; pairing state with its owning kind is the caller's
    /// charge.
    pub fn serialize_state(&self, state: &State) -> (r: Result<DynData, SerializeError>)
        requires
            state is Switch,
        ensures
            switch_encodes(state->Switch_0, r),
    {
        match state {
            State::Switch(enabled) => Ok(DynData::Boolean(*enabled)),
            // unreachable under the requires
            _ => Ok(DynData::Empty),
        }
    }
}

/// A programmable processor block kind; the three processor blocks differ
/// only in footprint.
pub struct ProcessorLogic {
    size: u8,
}

/// Exactly what decoding a processor configuration yields. An empty
/// configuration is a fresh processor. A byte array is decompressed and
/// parsed: success means the payload held one complete stream whose decoding
/// parses to the returned state; each layout failure carries what the first
/// failed check saw; a decompression fault or a stalled stream comes exactly
/// from a payload that holds no complete stream. Any other variant is a type
/// mismatch.
pub open spec fn processor_decodes(
    data: DynData,
    r: Result<Option<State>, DeserializeError>,
) -> bool {
    match data {
        DynData::Empty => r matches Ok(Some(State::Processor(st))) && st@.code == Seq::<
            char,
        >::empty() && st@.links == Seq::<LinkView>::empty(),
        DynData::ByteArray(arr) => match r {
            Ok(os) => os matches Some(State::Processor(st)) && (inflate_of(arr@) matches Some(raw)
                && parse_state(raw) == ParseOutcome::Parsed(st@)),
            Err(e) => e matches DeserializeError::Processor(pe) && match pe {
                ProcessorDeserializeError::Decompress(_) => inflate_of(arr@) is None,
                ProcessorDeserializeError::DecompressStall => inflate_of(arr@) is None,
                ProcessorDeserializeError::Read(ReadError::Underflow) => inflate_of(arr@) matches
                    Some(raw) && parse_state(raw) == ParseOutcome::Truncated,
                ProcessorDeserializeError::Read(ReadError::Utf8) => inflate_of(arr@) matches Some(
                    raw,
                ) && parse_state(raw) == ParseOutcome::BadNameUtf8,
                ProcessorDeserializeError::FromUtf8 => inflate_of(arr@) matches Some(raw)
                    && parse_state(raw) == ParseOutcome::BadCodeUtf8,
                ProcessorDeserializeError::Version(v) => inflate_of(arr@) matches Some(raw)
                    && parse_state(raw) == ParseOutcome::BadVersion(v),
                ProcessorDeserializeError::CodeLength(c) => inflate_of(arr@) matches Some(raw)
                    && parse_state(raw) == ParseOutcome::BadCodeLength(c),
                ProcessorDeserializeError::LinkCount(c) => inflate_of(arr@) matches Some(raw)
                    && parse_state(raw) == ParseOutcome::BadLinkCount(c),
            },
        },
        _ => r == Err::<Option<State>, DeserializeError>(
            DeserializeError::InvalidType {
                have: data.spec_get_type(),
                expect: DynType::ByteArray,
            },
        ),
    }
}

/// Exactly what encoding a processor state yields: on success, a byte array
/// holding one complete compressed stream that decompresses to the state's
/// binary layout; the only failure left open is a fault of the compression
/// stream itself, never a stall.
pub open spec fn processor_encodes(st: ProcessorView, r: Result<DynData, SerializeError>) -> bool {
    match r {
        Ok(d) => d matches DynData::ByteArray(out) && inflate_of(out@) == Some(state_bytes(st)),
        Err(e) => e matches SerializeError::Processor(pe) && pe is Compress,
    }
}

impl ProcessorLogic {
    /// The block's footprint.
    pub closed spec fn spec_size(&self) -> u8 {
        self.size
    }

    /// Builds the kind descriptor for one processor size.
    pub fn new(size: u8) -> (r: Self)
        requires
            size != 0,
        ensures
            r.spec_size() == size,
    {
        ProcessorLogic { size }
    }

    /// The footprint.
    pub fn get_size(&self) -> (r: u8)
        ensures
            r == self.spec_size(),
    {
        self.size
    }

    /// Rotation does not change a processor.
    pub fn is_symmetric(&self) -> (r: bool)
        ensures
            r,
    {
        true
    }

    /// The default configuration: none.
    pub fn data_from_i32(&self, _config: i32) -> (r: DynData)
        ensures
            r == DynData::Empty,
    {
        DynData::Empty
    }

    /// Decodes a persisted configuration into a processor state: the stream
    /// is decompressed under the stall guard, then the layout parsed, exactly
    /// as [`processor_decodes`] lays out.
    pub fn deserialize_state(&self, data: DynData) -> (r: Result<Option<State>, DeserializeError>)
        ensures
            processor_decodes(data, r),
    {
        match data {
            DynData::Empty => Ok(Some(State::Processor(ProcessorState::new()))),
            DynData::ByteArray(arr) => {
                let raw = match crate::stream::decompress(arr.as_slice()) {
                    Ok(raw) => raw,
                    Err(crate::stream::DecompressFault::Backend(e)) => {
                        return Err(
                            DeserializeError::Processor(ProcessorDeserializeError::Decompress(e)),
                        );
                    },
                    Err(crate::stream::DecompressFault::Stall) => {
                        return Err(
                            DeserializeError::Processor(
                                ProcessorDeserializeError::DecompressStall,
                            ),
                        );
                    },
                };
                match parse_processor_state(raw.as_slice()) {
                    Ok(st) => Ok(Some(State::Processor(st))),
                    Err(e) => Err(DeserializeError::Processor(e)),
                }
            },
            other => Err(
                DeserializeError::InvalidType {
                    have: other.get_type(),
                    expect: DynType::ByteArray,
                },
            ),
        }
    }

    /// Encodes a processor state: the binary layout is written, then carried
    /// through the compression stream under the stall guard, exactly as
    /// [`processor_encodes`] lays out. The state must be a processor whose
    /// link table fits the format's signed 32-bit count; pairing state with
    /// its owning kind is the caller's charge.
    pub fn serialize_state(&self, state: &State) -> (r: Result<DynData, SerializeError>)
        requires
            state is Processor,
            state->Processor_0@.links.len() <= i32::MAX,
        ensures
            processor_encodes(state->Processor_0@, r),
    {
        match state {
            State::Processor(st) => {
                let raw = write_processor_state(st);
                match crate::stream::compress(raw.as_slice()) {
                    Ok(out) => Ok(DynData::ByteArray(out)),
                    Err(crate::stream::CompressFault::Backend(e)) => Err(
                        SerializeError::Processor(ProcessorSerializeError::Compress(e)),
                    ),
                    // provably never reached: compression cannot stall
                    Err(crate::stream::CompressFault::Stall) => Err(
                        SerializeError::Processor(ProcessorSerializeError::CompressStall),
                    ),
                }
            },
            // unreachable under the requires
            _ => Ok(DynData::Empty),
        }
    }
}

} // verus!

