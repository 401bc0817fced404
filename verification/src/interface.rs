//! Rendering of the plain, synchronous `{Name}Service` traits that the
//! collection implements, one per protobuf service.

use vstd::prelude::*;
use vstd::string::*;
use inflections::Inflect;
use crate::error::AnkiError;
use crate::text::{matches_at, occurs_at, lacks, lemma_replace_all_absent, lemma_replace_all_lacks, lemma_replace_all_no_occurrence, lemma_replace_char_after_prefix, chars_of, extend_chars, last_index_of, lemma_last_index_of, replace_all, replace_chars, str_eq, string_from_chars};

verus! {

/// One method of a protobuf service. `input` and `output` hold the full
/// protobuf names of the request and response messages, or `None` where the
/// message is `anki.generic.Empty`.
pub struct Method {
    pub name: String,
    pub input: Option<String>,
    pub output: Option<String>,
}

/// A protobuf service implemented on the collection.
pub struct CollectionService {
    pub name: String,
    pub trait_methods: Vec<Method>,
}

/// A method as plain text values.
pub struct MethodSpec {
    pub name: Seq<char>,
    pub input: Option<Seq<char>>,
    pub output: Option<Seq<char>>,
}

/// A service as plain text values.
pub struct ServiceSpec {
    pub name: Seq<char>,
    pub methods: Seq<MethodSpec>,
}

pub open spec fn opt_text(o: Option<String>) -> Option<Seq<char>> {
    match o {
        Some(s) => Some(s@),
        None => None,
    }
}

impl View for Method {
    type V = MethodSpec;

    open spec fn view(&self) -> MethodSpec {
        MethodSpec { name: self.name@, input: opt_text(self.input), output: opt_text(self.output) }
    }
}

impl View for CollectionService {
    type V = ServiceSpec;

    open spec fn view(&self) -> ServiceSpec {
        ServiceSpec { name: self.name@, methods: self.trait_methods@.map_values(|m: Method| m@) }
    }
}

/// What `to_snake_case` of the inflections crate returns for `s`.
pub uninterp spec fn snake_case(s: Seq<char>) -> Seq<char>;

/// Calls `inflections::Inflect::to_snake_case`.
/// The contract claims only that the result is a function of the input,
/// named `snake_case`.
#[verifier::external_body]
fn to_snake_case(s: &str) -> (r: String)
    ensures
        r@ == snake_case(s@),
{
    s.to_snake_case()
}

/// A protobuf message name that names a message inside a package.
pub open spec fn is_qualified_name(name: Seq<char>) -> bool {
    name.contains('.')
}

/// The Rust path for a message whose package, already in snake case, is
/// `snake_package` and whose own name is `message`: `.` in the package is
/// written `::`, the top-level `anki` package is written `anki_proto`, and
/// `::` joins the package path to the message's name.
pub open spec fn rust_path_spec(snake_package: Seq<char>, message: Seq<char>) -> Seq<char> {
    replace_all(replace_all(snake_package, seq!['.'], "::"@), "anki::"@, "anki_proto::"@) + "::"@
        + message
}

/// The Rust type of the protobuf message `name`: its package (everything
/// before the last `.`) in snake case, made into a path with
/// `rust_path_spec`, followed by the message's own name.
pub open spec fn rust_type_spec(name: Seq<char>) -> Seq<char> {
    let i = last_index_of(name, '.');
    rust_path_spec(snake_case(name.take(i)), name.skip(i + 1))
}

/// The Rust path for a message in the snake-case package `snake_package`
/// (see `rust_path_spec`).
pub fn rust_path(snake_package: &str, message: &str) -> (r: String)
    ensures
        r@ == rust_path_spec(snake_package@, message@),
{
    let snake_chars = chars_of(snake_package);
    let dot: Vec<char> = vec!['.'];
    let path_sep = chars_of("::");
    let step1 = replace_chars(snake_chars.as_slice(), dot.as_slice(), path_sep.as_slice());
    assert(dot@ == seq!['.']);
    let anki = chars_of("anki::");
    let anki_proto = chars_of("anki_proto::");
    let mut out = replace_chars(step1.as_slice(), anki.as_slice(), anki_proto.as_slice());
    extend_chars(&mut out, path_sep.as_slice());
    let tail_chars = chars_of(message);
    extend_chars(&mut out, tail_chars.as_slice());
    string_from_chars(out.as_slice())
}

/// The Rust type of the message `name` (see `rust_type_spec`). A name
/// without a package has no Rust type.
pub fn rust_type(name: &str) -> (r: String)
    requires
        is_qualified_name(name@),
    ensures
        r@ == rust_type_spec(name@),
{
    let chars = chars_of(name);
    proof {
        lemma_last_index_of(name@, '.');
    }
    let mut i: usize = chars.len();
    while i > 0 && chars[i - 1] != '.'
        invariant
            i <= chars@.len(),
            chars@ == name@,
            forall|j: int| i <= j < chars@.len() ==> chars@[j] != '.',
        decreases i,
    {
        i = i - 1;
    }
    let ghost last = last_index_of(name@, '.');
    assert(i > 0) by {
        if i == 0 {
            assert(chars@[last] == '.');
        }
    }
    assert(i - 1 == last) by {
        if last > i - 1 {
            assert(chars@[last] == '.');
        }
    }
    let idx = i - 1;
    let head = name.substring_char(0, idx);
    let snake = to_snake_case(head);
    let tail = name.substring_char(idx + 1, chars.len());
    assert(tail@ =~= name@.skip(last + 1));
    rust_path(snake.as_str(), tail)
}

/// A generated type path holds no `.`: every package separator becomes
/// `::`, and the message's own name follows the last separator.
pub proof fn lemma_rust_type_has_no_dots(name: Seq<char>)
    requires
        is_qualified_name(name),
    ensures
        lacks(rust_type_spec(name), '.'),
        rust_type_spec(name).len() >= 2 + name.skip(last_index_of(name, '.') + 1).len(),
{
    reveal_strlit("::");
    reveal_strlit("anki::");
    reveal_strlit("anki_proto::");
    lemma_last_index_of(name, '.');
    let i = last_index_of(name, '.');
    let head = name.take(i);
    let tail = name.skip(i + 1);
    lemma_replace_all_lacks(snake_case(head), seq!['.'], "::"@, '.');
    let step1 = replace_all(snake_case(head), seq!['.'], "::"@);
    assert(rust_type_spec(name) == replace_all(step1, "anki::"@, "anki_proto::"@) + "::"@ + tail);
    lemma_replace_all_lacks(step1, "anki::"@, "anki_proto::"@, '.');
    let step2 = replace_all(step1, "anki::"@, "anki_proto::"@);
    assert forall|j: int| 0 <= j < tail.len() implies tail[j] != '.' by {
        assert(tail[j] == name[i + 1 + j]);
    }
    let r = step2 + "::"@ + tail;
    assert forall|j: int| 0 <= j < r.len() implies r[j] != '.' by {
        if j < step2.len() {
            assert(r[j] == step2[j]);
        } else if j < step2.len() + 2 {
            assert(r[j] == "::"@[j - step2.len()]);
        } else {
            assert(r[j] == tail[j - step2.len() - 2]);
        }
    }
}

/// A package of one segment, such as `ankiweb`, keeps its name in the
/// generated path, even where the name starts with `anki`.
pub proof fn lemma_rust_path_single_segment(package: Seq<char>, message: Seq<char>)
    requires
        lacks(package, '.'),
        lacks(package, ':'),
    ensures
        rust_path_spec(package, message) == package + "::"@ + message,
{
    reveal_strlit("anki::");
    lemma_replace_all_absent(package, seq!['.'], "::"@, 0);
    assert("anki::"@[4] == ':');
    lemma_replace_all_absent(package, "anki::"@, "anki_proto::"@, 4);
}

/// A package of two segments `x.y` becomes the path `x::y`, unless `x`
/// ends in `anki`: a segment that merely starts with or holds `anki`
/// otherwise is not renamed.
pub proof fn lemma_rust_path_two_segments(x: Seq<char>, y: Seq<char>, message: Seq<char>)
    requires
        lacks(x, '.'),
        lacks(x, ':'),
        lacks(y, '.'),
        lacks(y, ':'),
        !(x.len() >= 4 && x.subrange(x.len() - 4, x.len() as int) == seq!['a', 'n', 'k', 'i']),
    ensures
        rust_path_spec(x + seq!['.'] + y, message) == x + seq![':', ':'] + y + seq![':', ':']
            + message,
{
    reveal_strlit("::");
    reveal_strlit("anki::");
    let dot = seq!['.'];
    let sep = "::"@;
    assert(sep =~= seq![':', ':']);
    assert(x + dot + y =~= x + (dot + y));
    lemma_replace_char_after_prefix(x, dot + y, '.', sep);
    let dy = dot + y;
    assert(occurs_at(dy, dot, 0)) by {
        assert(dy.subrange(0, 1) =~= dot);
    }
    assert(dy.skip(1) =~= y);
    lemma_replace_all_absent(y, dot, sep, 0);
    assert(replace_all(dy, dot, sep) == sep + y);
    let step1 = x + sep + y;
    assert(replace_all(x + dot + y, dot, sep) =~= step1);
    let a = "anki::"@;
    assert(a =~= seq!['a', 'n', 'k', 'i', ':', ':']);
    assert forall|i: int| !occurs_at(step1, a, i) by {
        if occurs_at(step1, a, i) {
            let sub = step1.subrange(i, i + 6);
            assert(sub[4] == ':' && sub[4] == step1[i + 4]);
            // the only colons are the two of the separator
            if i + 4 < x.len() {
                assert(step1[i + 4] == x[i + 4]);
            } else if i + 4 > x.len() + 1 {
                assert(step1[i + 4] == y[i + 4 - x.len() - 2]);
            } else if i + 4 == x.len() + 1 {
                assert(sub[5] == step1[i + 5]);
                if i + 5 - x.len() - 2 < y.len() {
                    assert(step1[i + 5] == y[i + 5 - x.len() - 2]);
                }
            } else {
                assert(i == x.len() - 4);
                assert(x.subrange(x.len() - 4, x.len() as int) =~= seq!['a', 'n', 'k', 'i']) by {
                    assert forall|j: int| 0 <= j < 4 implies x.subrange(
                        x.len() - 4,
                        x.len() as int,
                    )[j] == seq!['a', 'n', 'k', 'i'][j] by {
                        assert(step1[i + j] == x[i + j]);
                        assert(sub[j] == step1[i + j]);
                    }
                }
            }
        }
    }
    lemma_replace_all_no_occurrence(step1, a, "anki_proto::"@);
}

/// Only the whole leading segment `anki` is renamed: a message in the
/// package `anki.q`, for a one-segment `q`, gets the path `anki_proto::`,
/// then `q`, then `::` and the message's name.
pub proof fn lemma_rust_path_renames_anki_segment(q: Seq<char>, message: Seq<char>)
    requires
        lacks(q, '.'),
        lacks(q, ':'),
    ensures
        rust_path_spec(seq!['a', 'n', 'k', 'i', '.'] + q, message) == seq![
            'a',
            'n',
            'k',
            'i',
            '_',
            'p',
            'r',
            'o',
            't',
            'o',
            ':',
            ':',
        ] + q + seq![':', ':'] + message,
{
    reveal_strlit("::");
    reveal_strlit("anki::");
    reveal_strlit("anki_proto::");
    let dot = seq!['.'];
    let sep = "::"@;
    let p = seq!['a', 'n', 'k', 'i', '.'] + q;
    lemma_replace_all_absent(q, dot, sep, 0);
    // the four letters are kept, the dot becomes `::`, and `q` is kept
    let s4 = p.skip(4);
    assert(s4 =~= seq!['.'] + q);
    assert(occurs_at(s4, dot, 0)) by {
        assert(s4.subrange(0, 1) =~= dot);
    }
    assert(s4.skip(1) =~= q);
    assert(replace_all(s4, dot, sep) == sep + q);
    let s3 = p.skip(3);
    assert(!occurs_at(s3, dot, 0)) by {
        assert(s3.subrange(0, 1)[0] == 'i');
    }
    assert(s3.skip(1) =~= s4);
    assert(replace_all(s3, dot, sep) == seq!['i'] + (sep + q));
    let s2 = p.skip(2);
    assert(!occurs_at(s2, dot, 0)) by {
        assert(s2.subrange(0, 1)[0] == 'k');
    }
    assert(s2.skip(1) =~= s3);
    assert(replace_all(s2, dot, sep) == seq!['k'] + (seq!['i'] + (sep + q)));
    let s1 = p.skip(1);
    assert(!occurs_at(s1, dot, 0)) by {
        assert(s1.subrange(0, 1)[0] == 'n');
    }
    assert(s1.skip(1) =~= s2);
    assert(replace_all(s1, dot, sep) == seq!['n'] + (seq!['k'] + (seq!['i'] + (sep + q))));
    assert(!occurs_at(p, dot, 0)) by {
        assert(p.subrange(0, 1)[0] == 'a');
    }
    assert(p.skip(1) =~= s1);
    let step1 = replace_all(p, dot, sep);
    assert(step1 == seq!['a'] + (seq!['n'] + (seq!['k'] + (seq!['i'] + (sep + q)))));
    assert(step1 =~= "anki::"@ + q);
    // the leading `anki::` is renamed, and `q` holds no `:` to match again
    let a = "anki::"@;
    let b = "anki_proto::"@;
    assert(occurs_at(step1, a, 0)) by {
        assert(step1.subrange(0, 6) =~= a);
    }
    assert(step1.skip(6) =~= q);
    assert(a[4] == ':');
    lemma_replace_all_absent(q, a, b, 4);
    assert(replace_all(step1, a, b) == b + q);
    assert(b =~= seq!['a', 'n', 'k', 'i', '_', 'p', 'r', 'o', 't', 'o', ':', ':']);
    assert(sep =~= seq![':', ':']);
}

/// `input: {type}`, or nothing where the method takes `generic.Empty`.
pub open spec fn input_arg_spec(m: MethodSpec) -> Seq<char> {
    match m.input {
        Some(t) => "input: "@ + rust_type_spec(t),
        None => Seq::empty(),
    }
}

/// The output type, or `()` where the method returns `generic.Empty`.
pub open spec fn output_type_spec(m: MethodSpec) -> Seq<char> {
    match m.output {
        Some(t) => rust_type_spec(t),
        None => "()"@,
    }
}

/// Whether the message names of a method can be turned into Rust types.
pub open spec fn method_names_qualified(m: MethodSpec) -> bool {
    &&& (m.input matches Some(t) ==> is_qualified_name(t))
    &&& (m.output matches Some(t) ==> is_qualified_name(t))
}

/// The declaration of one trait method.
pub open spec fn method_decl_spec(m: MethodSpec) -> Seq<char> {
    "fn "@ + m.name + "(&mut self, "@ + input_arg_spec(m) + ") -> Result<"@ + output_type_spec(m)
        + ">;\n"@
}

/// The declarations of a run of methods, one after the other.
pub open spec fn methods_decl_spec(ms: Seq<MethodSpec>) -> Seq<char>
    decreases ms.len(),
{
    if ms.len() == 0 {
        Seq::empty()
    } else {
        methods_decl_spec(ms.drop_last()) + method_decl_spec(ms.last())
    }
}

/// The trait generated for one service.
pub open spec fn trait_decl_spec(s: ServiceSpec) -> Seq<char> {
    "pub trait "@ + s.name + " {\n"@ + methods_decl_spec(s.methods) + "}"@
}

/// Whether a service is a `Backend{Name}Service`, one of the services that
/// only a byte-marshalling backend would implement.
pub open spec fn is_backend_service(s: ServiceSpec) -> bool {
    occurs_at(s.name, "Backend"@, 0)
}

/// The services of `ss`, in order, that are backend services (`backend`)
/// or that are not.
pub open spec fn services_of_kind(ss: Seq<ServiceSpec>, backend: bool) -> Seq<ServiceSpec>
    decreases ss.len(),
{
    if ss.len() == 0 {
        Seq::empty()
    } else {
        let rest = services_of_kind(ss.drop_first(), backend);
        if is_backend_service(ss[0]) == backend {
            seq![ss[0]] + rest
        } else {
            rest
        }
    }
}

pub open spec fn services_view(ss: Seq<CollectionService>) -> Seq<ServiceSpec> {
    ss.map_values(|s: CollectionService| s@)
}

/// Splits services into those the collection implements and the
/// `Backend{Name}Service`s, keeping the order of each.
pub fn split_services(services: Vec<CollectionService>) -> (r: (
    Vec<CollectionService>,
    Vec<CollectionService>,
))
    ensures
        services_view(r.0@) == services_of_kind(services_view(services@), false),
        services_view(r.1@) == services_of_kind(services_view(services@), true),
{
    let ghost all = services_view(services@);
    let mut rest = services;
    let mut col: Vec<CollectionService> = Vec::new();
    let mut backend: Vec<CollectionService> = Vec::new();
    let backend_prefix = chars_of("Backend");
    while rest.len() > 0
        invariant
            backend_prefix@ == "Backend"@,
            services_view(col@) + services_of_kind(services_view(rest@), false)
                == services_of_kind(all, false),
            services_view(backend@) + services_of_kind(services_view(rest@), true)
                == services_of_kind(all, true),
        decreases rest.len(),
    {
        let ghost before = services_view(rest@);
        let s = rest.remove(0);
        assert(services_view(rest@) =~= before.drop_first());
        assert(before[0] == s@);
        let name = chars_of(s.name.as_str());
        let is_backend = matches_at(name.as_slice(), backend_prefix.as_slice(), 0);
        let ghost col_before = services_view(col@);
        let ghost backend_before = services_view(backend@);
        if is_backend {
            backend.push(s);
            assert(services_view(backend@) =~= backend_before.push(s@));
            assert(services_view(col@) =~= col_before);
        } else {
            col.push(s);
            assert(services_view(col@) =~= col_before.push(s@));
            assert(services_view(backend@) =~= backend_before);
        }
        assert(seq![s@] + services_of_kind(services_view(rest@), false) =~= seq![s@].add(
            services_of_kind(services_view(rest@), false),
        ));
        assert(col_before.push(s@) + services_of_kind(services_view(rest@), false) =~= col_before
            + (seq![s@] + services_of_kind(services_view(rest@), false)));
        assert(backend_before.push(s@) + services_of_kind(services_view(rest@), true)
            =~= backend_before + (seq![s@] + services_of_kind(services_view(rest@), true)));
    }
    assert(services_view(rest@) =~= Seq::<ServiceSpec>::empty());
    assert(services_view(col@) =~= services_of_kind(all, false));
    assert(services_view(backend@) =~= services_of_kind(all, true));
    (col, backend)
}

/// No service kept for the collection is a backend service, so no
/// `Backend{Name}Service` trait is generated from them.
pub proof fn lemma_split_keeps_no_backend(ss: Seq<ServiceSpec>)
    ensures
        forall|i: int|
            0 <= i < services_of_kind(ss, false).len() ==> !is_backend_service(
                #[trigger] services_of_kind(ss, false)[i],
            ),
    decreases ss.len(),
{
    if ss.len() > 0 {
        lemma_split_keeps_no_backend(ss.drop_first());
        let rest = services_of_kind(ss.drop_first(), false);
        if !is_backend_service(ss[0]) {
            assert forall|i: int|
                0 <= i < (seq![ss[0]] + rest).len() implies !is_backend_service(
                #[trigger] (seq![ss[0]] + rest)[i],
            ) by {
                if i > 0 {
                    assert((seq![ss[0]] + rest)[i] == rest[i - 1]);
                }
            }
        }
    }
}

/// Whether a service is left out of the generated interface.
pub open spec fn is_skipped_service(s: ServiceSpec) -> bool {
    s.name == "FrontendService"@
}

/// The traits of the services that are not skipped, one after the other.
pub open spec fn traits_decl_spec(ss: Seq<ServiceSpec>) -> Seq<char>
    decreases ss.len(),
{
    if ss.len() == 0 {
        Seq::empty()
    } else if is_skipped_service(ss.last()) {
        traits_decl_spec(ss.drop_last())
    } else {
        traits_decl_spec(ss.drop_last()) + trait_decl_spec(ss.last())
    }
}

/// The whole generated interface, before formatting.
pub open spec fn interface_spec(ss: Seq<ServiceSpec>) -> Seq<char> {
    "use crate::error::Result;"@ + traits_decl_spec(ss)
}

impl Method {
    /// The Rust type of the request, if the method takes one.
    pub fn input_type(&self) -> (r: Option<String>)
        requires
            method_names_qualified(self@),
        ensures
            match self@.input {
                Some(t) => r matches Some(s) && s@ == rust_type_spec(t),
                None => r is None,
            },
    {
        match &self.input {
            Some(t) => Some(rust_type(t.as_str())),
            None => None,
        }
    }

    /// The Rust type of the response, if the method returns one.
    pub fn output_type(&self) -> (r: Option<String>)
        requires
            method_names_qualified(self@),
        ensures
            match self@.output {
                Some(t) => r matches Some(s) && s@ == rust_type_spec(t),
                None => r is None,
            },
    {
        match &self.output {
            Some(t) => Some(rust_type(t.as_str())),
            None => None,
        }
    }

    /// `input: {type}`; no text if the method takes `generic.Empty`.
    pub fn get_input_arg_with_label(&self) -> (r: String)
        requires
            method_names_qualified(self@),
        ensures
            r@ == input_arg_spec(self@),
    {
        match self.input_type() {
            Some(t) => {
                let mut r = String::from_str("input: ");
                r.append(t.as_str());
                r
            },
            None => String::new(),
        }
    }

    /// The output type; `()` if the method returns `generic.Empty`.
    pub fn get_output_type(&self) -> (r: String)
        requires
            method_names_qualified(self@),
        ensures
            r@ == output_type_spec(self@),
    {
        match self.output_type() {
            Some(t) => t,
            None => String::from_str("()"),
        }
    }
}

/// Appends the declaration of `method` to `buf`.
pub fn render_trait_method(method: &Method, buf: &mut String)
    requires
        method_names_qualified(method@),
    ensures
        final(buf)@ == old(buf)@ + method_decl_spec(method@),
{
    let input_with_label = method.get_input_arg_with_label();
    let output_type = method.get_output_type();
    buf.append("fn ");
    buf.append(method.name.as_str());
    buf.append("(&mut self, ");
    buf.append(input_with_label.as_str());
    buf.append(") -> Result<");
    buf.append(output_type.as_str());
    buf.append(">;\n");
    assert(final(buf)@ =~= old(buf)@ + method_decl_spec(method@));
}

/// Whether every method of every service has qualified message names.
pub open spec fn services_names_qualified(ss: Seq<ServiceSpec>) -> bool {
    forall|i: int, j: int|
        0 <= i < ss.len() && 0 <= j < ss[i].methods.len() ==> method_names_qualified(
            #[trigger] ss[i].methods[j],
        )
}

/// Appends the trait generated for `service` to `buf`.
pub fn render_collection_trait(service: &CollectionService, buf: &mut String)
    requires
        forall|j: int|
            0 <= j < service@.methods.len() ==> method_names_qualified(#[trigger] service@.methods[j]),
    ensures
        final(buf)@ == old(buf)@ + trait_decl_spec(service@),
{
    let ghost start = buf@;
    buf.append("pub trait ");
    buf.append(service.name.as_str());
    buf.append(" {\n");
    let ghost opened = buf@;
    let mut i: usize = 0;
    while i < service.trait_methods.len()
        invariant
            i <= service.trait_methods@.len(),
            forall|j: int|
                0 <= j < service@.methods.len() ==> method_names_qualified(
                    #[trigger] service@.methods[j],
                ),
            buf@ == opened + methods_decl_spec(service@.methods.take(i as int)),
        decreases service.trait_methods.len() - i,
    {
        assert(service@.methods[i as int] == service.trait_methods@[i as int]@);
        render_trait_method(&service.trait_methods[i], buf);
        assert(service@.methods.take(i + 1).drop_last() =~= service@.methods.take(i as int));
        i = i + 1;
    }
    assert(service@.methods.take(i as int) =~= service@.methods);
    buf.append("}");
    assert(buf@ =~= start + trait_decl_spec(service@));
}

/// The source of the generated interface: the prelude import followed by
/// one trait per service, skipping `FrontendService`.
pub fn render_rust_interface(services: &Vec<CollectionService>) -> (buf: String)
    requires
        services_names_qualified(services@.map_values(|s: CollectionService| s@)),
    ensures
        buf@ == interface_spec(services@.map_values(|s: CollectionService| s@)),
{
    let ghost ss = services@.map_values(|s: CollectionService| s@);
    let mut buf = String::from_str("use crate::error::Result;");
    let mut i: usize = 0;
    while i < services.len()
        invariant
            i <= services@.len(),
            ss == services@.map_values(|s: CollectionService| s@),
            services_names_qualified(ss),
            buf@ == "use crate::error::Result;"@ + traits_decl_spec(ss.take(i as int)),
        decreases services.len() - i,
    {
        let service = &services[i];
        assert(ss[i as int] == service@);
        assert(ss.take(i + 1).drop_last() =~= ss.take(i as int));
        let skipped = str_eq(service.name.as_str(), "FrontendService");
        if !skipped {
            assert forall|j: int|
                0 <= j < service@.methods.len() implies method_names_qualified(
                #[trigger] service@.methods[j],
            ) by {
                assert(ss[i as int].methods[j] == service@.methods[j]);
            }
            render_collection_trait(service, &mut buf);
        }
        i = i + 1;
    }
    assert(ss.take(i as int) =~= ss);
    buf
}

/// Whether `syn::parse_file` accepts `code`.
pub uninterp spec fn parses_as_rust_file(code: Seq<char>) -> bool;

/// What `prettyplease::unparse` prints for the file that `syn::parse_file`
/// reads from `code`, or `None` where it stops with a panic instead (it
/// panics on syntax that `syn` keeps only as raw tokens, such as
/// `builtin # name(..)`).
pub uninterp spec fn formatted_rust(code: Seq<char>) -> Option<Seq<char>>;

/// Calls `syn::parse_file` on `code` and, when that succeeds,
/// `prettyplease::unparse` on the parsed file. Both are functions of the
/// text alone, so the contract claims that whether parsing succeeds is
/// named by `parses_as_rust_file` and what is printed by `formatted_rust`;
/// the parser's error is handed back as its message, whose text is left
/// unsaid. Printing panics on files that hold raw-token syntax, which the
/// `requires` leaves out.
#[verifier::external_body]
fn format_rust_source(code: &str) -> (r: Result<String, String>)
    requires
        parses_as_rust_file(code@) ==> formatted_rust(code@) is Some,
    ensures
        r is Ok <==> parses_as_rust_file(code@),
        r matches Ok(s) ==> formatted_rust(code@) == Some(s@),
{
    match syn::parse_file(code) {
        Ok(file) => Ok(prettyplease::unparse(&file)),
        Err(e) => Err(e.to_string()),
    }
}

/// Whether formatting `code` ends without a panic: text that does not
/// parse is refused, and text that parses can be printed.
pub open spec fn formattable(code: Seq<char>) -> bool {
    parses_as_rust_file(code) ==> formatted_rust(code) is Some
}

/// Parses `code` as a Rust file and prints it back in standard layout.
/// Fails exactly when `code` is not a Rust file, with the parser's message;
/// otherwise gives what `prettyplease` prints.
pub fn format_code(code: String) -> (r: Result<String, AnkiError>)
    requires
        formattable(code@),
    ensures
        r is Ok <==> parses_as_rust_file(code@),
        r matches Ok(s) ==> formatted_rust(code@) == Some(s@),
        r matches Err(e) ==> e is InvalidInput,
{
    match format_rust_source(code.as_str()) {
        Ok(formatted) => Ok(formatted),
        Err(message) => Err(AnkiError::InvalidInput { message }),
    }
}

/// The formatted source of the generated interface for `services`: the
/// text `render_rust_interface` builds, passed through `format_code`.
pub fn generate_rust_interface(services: &Vec<CollectionService>) -> (r: Result<String, AnkiError>)
    requires
        services_names_qualified(services@.map_values(|s: CollectionService| s@)),
        formattable(interface_spec(services@.map_values(|s: CollectionService| s@))),
    ensures
        r is Ok <==> parses_as_rust_file(interface_spec(services@.map_values(|s: CollectionService| s@))),
        r matches Ok(s) ==> formatted_rust(interface_spec(services@.map_values(|s: CollectionService| s@)))
            == Some(s@),
{
    let buf = render_rust_interface(services);
    format_code(buf)
}

} // verus!
