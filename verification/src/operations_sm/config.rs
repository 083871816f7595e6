//! Operation keys, filters and workflow definitions, and how keys and filters
//! map to topics and topic patterns.

use crate::operations_sm::topic::{
    find_separators, is_level, joined, lemma_levels_are_levels, lemma_levels_between_separators,
    lemma_levels_injective, lemma_levels_joined, lemma_separators_bounds, level_accepts, levels,
    pattern_accepts, separators, wildcard,
};
use crate::operations_sm::states::WorkflowStates;
use crate::text::{
    chars_of, clone_optional_text, clone_texts, optional_text_view, same_text, texts_view,
};
use vstd::prelude::*;
use vstd::std_specs::convert::{FromSpecImpl, TryFromSpecImpl};

verus! {

/// An OperationKey uniquely identifies an operation instance
///
/// There is a one-to-one relationship between an OperationKey
/// and the MQTT topic on which the operation instance state are published.
///
/// `tedge/operations/{subsystem}/{operation}/{request}/{instance}`
#[derive(Debug)]
pub struct OperationKey {
    /// The subsystem to which the operation applies:
    /// - the main device,
    /// - a child device,
    /// - ...
    pub subsystem: String,
    /// The operation type
    /// - configuration,
    /// - firmware update,
    /// - software update,
    /// - ...
    pub operation: String,
    /// The operation request
    /// - list
    /// - update,
    /// - remove,
    /// - ...
    pub request: String,
    /// The operation instance id
    pub instance: String,
}

/// What an [`OperationKey`] holds.
pub ghost struct OperationKeyView {
    pub subsystem: Seq<char>,
    pub operation: Seq<char>,
    pub request: Seq<char>,
    pub instance: Seq<char>,
}

impl View for OperationKey {
    type V = OperationKeyView;

    open spec fn view(&self) -> OperationKeyView {
        OperationKeyView {
            subsystem: self.subsystem@,
            operation: self.operation@,
            request: self.request@,
            instance: self.instance@,
        }
    }
}

impl Default for OperationKey {
    /// The key whose four fields are empty.
    fn default() -> (key: OperationKey)
        ensures
            key@ == (OperationKeyView {
                subsystem: Seq::<char>::empty(),
                operation: Seq::<char>::empty(),
                request: Seq::<char>::empty(),
                instance: Seq::<char>::empty(),
            }),
    {
        OperationKey {
            subsystem: String::new(),
            operation: String::new(),
            request: String::new(),
            instance: String::new(),
        }
    }
}

impl Clone for OperationKey {
    fn clone(&self) -> (copy: OperationKey)
        ensures
            copy@ == self@,
    {
        OperationKey {
            subsystem: self.subsystem.clone(),
            operation: self.operation.clone(),
            request: self.request.clone(),
            instance: self.instance.clone(),
        }
    }
}

impl OperationKeyView {
    /// Whether each field can stand as one level of a topic.
    pub open spec fn is_valid(self) -> bool {
        &&& is_level(self.subsystem)
        &&& is_level(self.operation)
        &&& is_level(self.request)
        &&& is_level(self.instance)
    }
}

/// The topic on which the states of the operation `key` are published.
pub open spec fn topic_of(key: OperationKeyView) -> Seq<char> {
    "tedge/operations/"@ + key.subsystem + "/"@ + key.operation + "/"@ + key.request + "/"@
        + key.instance
}

/// The operation a topic stands for: the topic has six levels, the first two
/// being `tedge` and `operations`, and the other four are the key's fields.
pub open spec fn key_of_topic(topic: Seq<char>) -> Option<OperationKeyView> {
    let l = levels(topic);
    if l.len() == 6 && l[0] == "tedge"@ && l[1] == "operations"@ {
        Some(OperationKeyView { subsystem: l[2], operation: l[3], request: l[4], instance: l[5] })
    } else {
        None
    }
}

/// Whether a text can be published on: it holds none of the wildcards `+` and `#`.
pub open spec fn is_topic_name(topic: Seq<char>) -> bool {
    forall|i: int| 0 <= i < topic.len() ==> topic[i] != '+' && topic[i] != '#'
}

/// Whether a text can stand as a fixed level of a pattern: it holds no separator
/// and no wildcard.
pub open spec fn is_identifier(text: Seq<char>) -> bool {
    forall|i: int|
        0 <= i < text.len() ==> text[i] != '/' && text[i] != '+' && text[i] != '#'
}

/// What the literals of the topic grammar hold.
pub proof fn lemma_topic_literals()
    ensures
        "tedge/operations/"@ == "tedge"@.push('/') + "operations"@.push('/'),
        "tedge"@ == seq!['t', 'e', 'd', 'g', 'e'],
        "operations"@ == seq!['o', 'p', 'e', 'r', 'a', 't', 'i', 'o', 'n', 's'],
        "/"@ == seq!['/'],
        "+"@ == seq!['+'],
        "/+"@ == seq!['/', '+'],
        is_level("tedge"@),
        is_level("operations"@),
        is_level("+"@),
{
    reveal_strlit("tedge/operations/");
    reveal_strlit("tedge");
    reveal_strlit("operations");
    reveal_strlit("/");
    reveal_strlit("+");
    reveal_strlit("/+");
    assert("tedge/operations/"@ =~= "tedge"@.push('/') + "operations"@.push('/'));
    assert("tedge"@ =~= seq!['t', 'e', 'd', 'g', 'e']);
    assert("operations"@ =~= seq!['o', 'p', 'e', 'r', 'a', 't', 'i', 'o', 'n', 's']);
    assert("/"@ =~= seq!['/']);
    assert("+"@ =~= seq!['+']);
    assert("/+"@ =~= seq!['/', '+']);
}

/// The text made of the operation prefix and of four levels is the topic made
/// of six levels: `tedge`, `operations`, and these four.
pub proof fn lemma_levels_of_six(
    topic: Seq<char>,
    a: Seq<char>,
    b: Seq<char>,
    c: Seq<char>,
    d: Seq<char>,
)
    requires
        topic == "tedge/operations/"@ + a + "/"@ + b + "/"@ + c + "/"@ + d,
        is_level(a),
        is_level(b),
        is_level(c),
        is_level(d),
    ensures
        topic == joined(seq!["tedge"@, "operations"@, a, b, c, d]),
        levels(topic) == seq!["tedge"@, "operations"@, a, b, c, d],
{
    lemma_topic_literals();
    let parts = seq!["tedge"@, "operations"@, a, b, c, d];
    let five = parts.drop_last();
    let four = five.drop_last();
    let three = four.drop_last();
    let two = three.drop_last();
    let one = two.drop_last();
    assert(joined(one) == "tedge"@);
    assert(joined(two) == joined(one).push('/') + "operations"@);
    assert(joined(three) == joined(two).push('/') + a);
    assert(joined(four) == joined(three).push('/') + b);
    assert(joined(five) == joined(four).push('/') + c);
    assert(joined(parts) == joined(five).push('/') + d);
    assert(joined(parts) =~= topic);
    lemma_levels_joined(parts);
}

/// Decoding the topic of a valid key gives the key back.
pub proof fn lemma_decode_encode(key: OperationKeyView)
    requires
        key.is_valid(),
    ensures
        key_of_topic(topic_of(key)) == Some(key),
{
    lemma_levels_of_six(topic_of(key), key.subsystem, key.operation, key.request, key.instance);
}

/// A topic that stands for an operation is the topic of that operation, whose
/// key is valid.
pub proof fn lemma_encode_decode(topic: Seq<char>)
    requires
        key_of_topic(topic) is Some,
    ensures
        key_of_topic(topic)->0.is_valid(),
        topic_of(key_of_topic(topic)->0) == topic,
{
    let key = key_of_topic(topic)->0;
    lemma_levels_are_levels(topic);
    lemma_levels_of_six(topic_of(key), key.subsystem, key.operation, key.request, key.instance);
    assert(levels(topic) =~= levels(topic_of(key)));
    lemma_levels_injective(topic_of(key), topic);
}

/// The topic of an operation can be published on if and only if no field of
/// its key holds a wildcard.
pub proof fn lemma_topic_name_of_key(key: OperationKeyView)
    ensures
        is_topic_name(topic_of(key)) <==> is_topic_name(key.subsystem) && is_topic_name(
            key.operation,
        ) && is_topic_name(key.request) && is_topic_name(key.instance),
{
    reveal_strlit("tedge/operations/");
    reveal_strlit("/");
    let prefix = "tedge/operations/"@;
    let topic = topic_of(key);
    let a = prefix.len() as int;
    let b = a + key.subsystem.len() + 1;
    let c = b + key.operation.len() + 1;
    let d = c + key.request.len() + 1;
    assert(topic.len() == d + key.instance.len());
    if is_topic_name(topic) {
        assert forall|i: int| 0 <= i < key.subsystem.len() implies key.subsystem[i] != '+'
            && key.subsystem[i] != '#' by {
            assert(topic[a + i] == key.subsystem[i]);
        }
        assert forall|i: int| 0 <= i < key.operation.len() implies key.operation[i] != '+'
            && key.operation[i] != '#' by {
            assert(topic[b + i] == key.operation[i]);
        }
        assert forall|i: int| 0 <= i < key.request.len() implies key.request[i] != '+'
            && key.request[i] != '#' by {
            assert(topic[c + i] == key.request[i]);
        }
        assert forall|i: int| 0 <= i < key.instance.len() implies key.instance[i] != '+'
            && key.instance[i] != '#' by {
            assert(topic[d + i] == key.instance[i]);
        }
    }
    if is_topic_name(key.subsystem) && is_topic_name(key.operation) && is_topic_name(key.request)
        && is_topic_name(key.instance) {
        assert forall|i: int| 0 <= i < topic.len() implies topic[i] != '+' && topic[i] != '#' by {
            if i < a {
                assert(topic[i] == prefix[i]);
            } else if i < b - 1 {
                assert(topic[i] == key.subsystem[i - a]);
            } else if i < b {
            } else if i < c - 1 {
                assert(topic[i] == key.operation[i - b]);
            } else if i < c {
            } else if i < d - 1 {
                assert(topic[i] == key.request[i - c]);
            } else if i < d {
            } else {
                assert(topic[i] == key.instance[i - d]);
            }
        }
    }
}

/// Whether `text` holds none of the wildcards `+` and `#`.
pub fn holds_no_wildcard(text: &str) -> (free: bool)
    ensures
        free == is_topic_name(text@),
{
    let chars = chars_of(text);
    let mut i: usize = 0;
    while i < chars.len()
        invariant
            i <= chars.len(),
            chars@ == text@,
            forall|j: int| 0 <= j < i ==> chars@[j] != '+' && chars@[j] != '#',
        decreases chars.len() - i,
    {
        if chars[i] == '+' || chars[i] == '#' {
            return false;
        }
        i += 1;
    }
    true
}

/// Whether `text` holds no separator and no wildcard.
pub fn holds_identifier(text: &str) -> (plain: bool)
    ensures
        plain == is_identifier(text@),
{
    let chars = chars_of(text);
    let mut i: usize = 0;
    while i < chars.len()
        invariant
            i <= chars.len(),
            chars@ == text@,
            forall|j: int|
                0 <= j < i ==> chars@[j] != '/' && chars@[j] != '+' && chars@[j] != '#',
        decreases chars.len() - i,
    {
        if chars[i] == '/' || chars[i] == '+' || chars[i] == '#' {
            return false;
        }
        i += 1;
    }
    true
}

impl TryFrom<&str> for OperationKey {
    type Error = String;

    /// The operation that `topic` stands for.
    ///
    /// Fails unless the topic is made of the levels `tedge` and `operations`
    /// followed by exactly four more levels.
    fn try_from(topic: &str) -> (decoded: Result<OperationKey, String>)
        ensures
            match decoded {
                Ok(key) => key_of_topic(topic@) == Some(key@) && key@.is_valid() && topic_of(key@)
                    == topic@,
                Err(error) => key_of_topic(topic@) is None && error@
                    == "Not an operation topic: "@ + topic@,
            },
    {
        let chars = chars_of(topic);
        let found = find_separators(&chars);
        proof {
            if key_of_topic(topic@) is Some {
                lemma_encode_decode(topic@);
            }
            lemma_levels_between_separators(topic@);
            lemma_separators_bounds(topic@);
            assert forall|k: int| 0 <= k < found@.len() implies #[trigger] found@[k] as int
                == separators(topic@)[k] by {
                assert(found@.map_values(|p: usize| p as int)[k] == found@[k] as int);
            }
        }
        if found.len() == 5 {
            let ghost l = levels(topic@);
            assert(l[0] == topic@.subrange(0, found@[0] as int));
            assert(l[1] == topic@.subrange(found@[0] + 1, found@[1] as int));
            assert(l[2] == topic@.subrange(found@[1] + 1, found@[2] as int));
            assert(l[3] == topic@.subrange(found@[2] + 1, found@[3] as int));
            assert(l[4] == topic@.subrange(found@[3] + 1, found@[4] as int));
            assert(l[5] == topic@.subrange(found@[4] + 1, topic@.len() as int));
            assert(found@[4] < chars.len() <= usize::MAX) by {
                assert(found@[4] as int == separators(topic@)[4]);
                assert(separators(topic@)[4] < topic@.len());
            }
            let root = topic.substring_char(0, found[0]);
            let group = topic.substring_char(found[0] + 1, found[1]);
            if same_text(root, "tedge") && same_text(group, "operations") {
                let key = OperationKey {
                    subsystem: topic.substring_char(found[1] + 1, found[2]).to_owned(),
                    operation: topic.substring_char(found[2] + 1, found[3]).to_owned(),
                    request: topic.substring_char(found[3] + 1, found[4]).to_owned(),
                    instance: topic.substring_char(found[4] + 1, chars.len()).to_owned(),
                };
                return Ok(key);
            }
        }
        let mut error = "Not an operation topic: ".to_owned();
        error.append(topic);
        Err(error)
    }
}

/// What `try_from` gives is stated on the function itself, over the views of
/// the values.
impl TryFromSpecImpl<&str> for OperationKey {
    open spec fn obeys_try_from_spec() -> bool {
        false
    }

    open spec fn try_from_spec(topic: &str) -> Result<OperationKey, String> {
        arbitrary()
    }
}

impl TryFrom<&String> for OperationKey {
    type Error = String;

    /// The operation that `topic` stands for.
    ///
    /// Fails unless the topic is made of the levels `tedge` and `operations`
    /// followed by exactly four more levels.
    fn try_from(topic: &String) -> (decoded: Result<OperationKey, String>)
        ensures
            match decoded {
                Ok(key) => key_of_topic(topic@) == Some(key@) && key@.is_valid() && topic_of(key@)
                    == topic@,
                Err(error) => key_of_topic(topic@) is None && error@
                    == "Not an operation topic: "@ + topic@,
            },
    {
        OperationKey::try_from(topic.as_str())
    }
}

/// What `try_from` gives is stated on the function itself, over the views of
/// the values.
impl TryFromSpecImpl<&String> for OperationKey {
    open spec fn obeys_try_from_spec() -> bool {
        false
    }

    open spec fn try_from_spec(topic: &String) -> Result<OperationKey, String> {
        arbitrary()
    }
}

impl From<&OperationKey> for String {
    /// The topic on which the states of the operation are published.
    fn from(value: &OperationKey) -> (topic: String)
        ensures
            topic@ == topic_of(value@),
    {
        value.topic_name()
    }
}

/// What `from` gives is stated on the function itself, over the views of the
/// values.
impl FromSpecImpl<&OperationKey> for String {
    open spec fn obeys_from_spec() -> bool {
        false
    }

    open spec fn from_spec(value: &OperationKey) -> String {
        arbitrary()
    }
}

impl OperationKey {
    /// The topic on which the states of this operation are published, made of
    /// the four fields, each in its own level.
    pub fn topic_name(&self) -> (topic: String)
        ensures
            topic@ == topic_of(self@),
            self@.is_valid() ==> key_of_topic(topic@) == Some(self@),
    {
        proof {
            if self@.is_valid() {
                lemma_decode_encode(self@);
            }
        }
        let mut topic = "tedge/operations/".to_owned();
        topic.append(self.subsystem.as_str());
        topic.append("/");
        topic.append(self.operation.as_str());
        topic.append("/");
        topic.append(self.request.as_str());
        topic.append("/");
        topic.append(self.instance.as_str());
        topic
    }

    /// The topic of this operation, checked to be one that can be published on.
    ///
    /// Fails if and only if a field holds a wildcard.
    pub fn to_topic(&self) -> (topic: Result<String, String>)
        ensures
            match topic {
                Ok(name) => name@ == topic_of(self@) && is_topic_name(name@),
                Err(error) => !is_topic_name(topic_of(self@)) && error@ == "Not a valid topic: "@
                    + topic_of(self@),
            },
            topic is Ok <==> is_topic_name(self@.subsystem) && is_topic_name(self@.operation)
                && is_topic_name(self@.request) && is_topic_name(self@.instance),
    {
        proof {
            lemma_topic_name_of_key(self@);
        }
        let name = self.topic_name();
        if holds_no_wildcard(name.as_str()) {
            Ok(name)
        } else {
            let mut error = "Not a valid topic: ".to_owned();
            error.append(name.as_str());
            Err(error)
        }
    }
}

/// An OperationFilter defines a set of operation instances.
///
/// OperationFilters are used by:
/// - Operation plugins to subscribe a specific set of operation state updates.
/// - Workflow definitions to define their scope.
///
/// An OperationFilter translates into an MQTT topic filter.
///
/// For instance, the filter of a plugin that handles all configuration related requests
/// on the main device and the child devices is `tedge/operations/+/configuration/+/+`
///
/// A workflow definition that overrides the configuration update requests on the main-device
/// is associated to the filter `tedge/operations/main-device/configuration/update/+`
#[derive(Debug)]
pub struct OperationFilter {
    /// The systems to which this filter applies
    ///
    /// None stands for any sub-system (this is the `+` MQTT wildcard).
    pub subsystem: Option<String>,
    /// The operations to which this filter applies
    ///
    /// None stands for any operation (this is the `+` MQTT wildcard).
    pub operation: Option<String>,
    /// The requests to which this filter applies
    ///
    /// None stands for any request (this is the `+` MQTT wildcard).
    pub request: Option<String>,
}

/// What an [`OperationFilter`] holds.
pub ghost struct OperationFilterView {
    pub subsystem: Option<Seq<char>>,
    pub operation: Option<Seq<char>>,
    pub request: Option<Seq<char>>,
}

impl View for OperationFilter {
    type V = OperationFilterView;

    open spec fn view(&self) -> OperationFilterView {
        OperationFilterView {
            subsystem: optional_text_view(self.subsystem),
            operation: optional_text_view(self.operation),
            request: optional_text_view(self.request),
        }
    }
}

impl Default for OperationFilter {
    /// The filter that accepts every operation.
    fn default() -> (filter: OperationFilter)
        ensures
            filter@ == (OperationFilterView { subsystem: None, operation: None, request: None }),
    {
        OperationFilter { subsystem: None, operation: None, request: None }
    }
}

impl Clone for OperationFilter {
    fn clone(&self) -> (copy: OperationFilter)
        ensures
            copy@ == self@,
    {
        OperationFilter {
            subsystem: clone_optional_text(&self.subsystem),
            operation: clone_optional_text(&self.operation),
            request: clone_optional_text(&self.request),
        }
    }
}

/// Whether a field of a filter lets a field of a key through.
pub open spec fn field_accepts(field: Option<Seq<char>>, value: Seq<char>) -> bool {
    match field {
        Some(wanted) => wanted == value,
        None => true,
    }
}

/// Whether a field of a filter can be rendered as a level of a pattern.
pub open spec fn field_is_valid(field: Option<Seq<char>>) -> bool {
    match field {
        Some(wanted) => is_identifier(wanted),
        None => true,
    }
}

/// The level of a pattern that renders a field of a filter.
pub open spec fn pattern_level(field: Option<Seq<char>>) -> Seq<char> {
    match field {
        Some(wanted) => wanted,
        None => "+"@,
    }
}

impl OperationFilterView {
    /// Whether the operation `key` is in the set that this filter defines.
    pub open spec fn accepts(self, key: OperationKeyView) -> bool {
        &&& field_accepts(self.subsystem, key.subsystem)
        &&& field_accepts(self.operation, key.operation)
        &&& field_accepts(self.request, key.request)
    }

    /// Whether each field that is present is an identifier.
    pub open spec fn is_valid(self) -> bool {
        &&& field_is_valid(self.subsystem)
        &&& field_is_valid(self.operation)
        &&& field_is_valid(self.request)
    }
}

/// The pattern of the topics of the operations that a filter defines: one
/// wildcard for each absent field, and one for the instance.
pub open spec fn pattern_of(filter: OperationFilterView) -> Seq<char> {
    "tedge/operations/"@ + pattern_level(filter.subsystem) + "/"@ + pattern_level(
        filter.operation,
    ) + "/"@ + pattern_level(filter.request) + "/+"@
}

/// The pattern of a valid filter accepts a topic if and only if the topic
/// stands for an operation that the filter accepts.
pub proof fn lemma_pattern_semantics(filter: OperationFilterView, topic: Seq<char>)
    requires
        filter.is_valid(),
    ensures
        pattern_accepts(pattern_of(filter), topic) <==> (key_of_topic(topic) matches Some(key)
            && filter.accepts(key)),
{
    lemma_topic_literals();
    let x1 = pattern_level(filter.subsystem);
    let x2 = pattern_level(filter.operation);
    let x3 = pattern_level(filter.request);
    let pattern = pattern_of(filter);
    assert(pattern =~= "tedge/operations/"@ + x1 + "/"@ + x2 + "/"@ + x3 + "/"@ + "+"@);
    lemma_levels_of_six(pattern, x1, x2, x3, "+"@);
    let p = levels(pattern);
    let t = levels(topic);
    assert(p.len() == 6);
    assert(p[0] == "tedge"@ && p[1] == "operations"@ && p[2] == x1 && p[3] == x2 && p[4] == x3
        && p[5] == "+"@);
    assert("tedge"@ != wildcard()) by {
        assert("tedge"@.len() == 5);
    }
    assert("operations"@ != wildcard()) by {
        assert("operations"@.len() == 10);
    }
    lemma_field_level(filter.subsystem);
    lemma_field_level(filter.operation);
    lemma_field_level(filter.request);
    if pattern_accepts(pattern, topic) {
        assert(level_accepts(p[0], t[0]));
        assert(level_accepts(p[1], t[1]));
        assert(level_accepts(p[2], t[2]));
        assert(level_accepts(p[3], t[3]));
        assert(level_accepts(p[4], t[4]));
    }
    if key_of_topic(topic) matches Some(key) && filter.accepts(key) {
        assert forall|k: int| 0 <= k < p.len() implies level_accepts(#[trigger] p[k], t[k]) by {
            if k == 0 {
            } else if k == 1 {
            } else if k == 2 {
            } else if k == 3 {
            } else if k == 4 {
            } else {
                assert(p[5] =~= wildcard());
            }
        }
    }
}

/// The pattern of all the operations accepts every topic that the pattern of
/// a valid filter accepts.
pub proof fn lemma_any_operation(filter: OperationFilterView, topic: Seq<char>)
    requires
        filter.is_valid(),
        pattern_accepts(pattern_of(filter), topic),
    ensures
        pattern_accepts(
            pattern_of(OperationFilterView { subsystem: None, operation: None, request: None }),
            topic,
        ),
{
    lemma_pattern_semantics(filter, topic);
    lemma_pattern_semantics(
        OperationFilterView { subsystem: None, operation: None, request: None },
        topic,
    );
}

/// The level that renders a valid field is free of separators, and it is the
/// wildcard only where the field is absent.
proof fn lemma_field_level(field: Option<Seq<char>>)
    requires
        field_is_valid(field),
    ensures
        is_level(pattern_level(field)),
        field is None ==> pattern_level(field) == wildcard(),
        field is Some ==> pattern_level(field) != wildcard(),
{
    lemma_topic_literals();
    match field {
        Some(wanted) => {
            if wanted == wildcard() {
                assert(wanted[0] == '+');
            }
        },
        None => {},
    }
}

impl OperationFilter {
    /// Whether the operation `key` is in the set that this filter defines.
    pub fn accepts(&self, key: &OperationKey) -> (accepted: bool)
        ensures
            accepted == self@.accepts(key@),
    {
        let subsystem = match &self.subsystem {
            Some(wanted) => *wanted == key.subsystem,
            None => true,
        };
        let operation = match &self.operation {
            Some(wanted) => *wanted == key.operation,
            None => true,
        };
        let request = match &self.request {
            Some(wanted) => *wanted == key.request,
            None => true,
        };
        subsystem && operation && request
    }

    /// Whether each field that is present is an identifier.
    pub fn is_valid(&self) -> (valid: bool)
        ensures
            valid == self@.is_valid(),
    {
        let subsystem = match &self.subsystem {
            Some(wanted) => holds_identifier(wanted.as_str()),
            None => true,
        };
        let operation = match &self.operation {
            Some(wanted) => holds_identifier(wanted.as_str()),
            None => true,
        };
        let request = match &self.request {
            Some(wanted) => holds_identifier(wanted.as_str()),
            None => true,
        };
        subsystem && operation && request
    }

    /// The pattern of the topics of the operations that this filter defines,
    /// whether or not the filter is valid.
    pub fn pattern_text(&self) -> (pattern: String)
        ensures
            pattern@ == pattern_of(self@),
    {
        let mut pattern = "tedge/operations/".to_owned();
        match &self.subsystem {
            Some(wanted) => pattern.append(wanted.as_str()),
            None => pattern.append("+"),
        }
        pattern.append("/");
        match &self.operation {
            Some(wanted) => pattern.append(wanted.as_str()),
            None => pattern.append("+"),
        }
        pattern.append("/");
        match &self.request {
            Some(wanted) => pattern.append(wanted.as_str()),
            None => pattern.append("+"),
        }
        pattern.append("/+");
        pattern
    }

    /// The pattern of the topics of the operations that this filter defines.
    ///
    /// Fails if and only if a field that is present holds a separator or a
    /// wildcard: its pattern would then accept other topics than those of the
    /// operations that the filter accepts.
    pub fn to_topic_pattern(&self) -> (pattern: Result<String, String>)
        ensures
            match pattern {
                Ok(text) => self@.is_valid() && text@ == pattern_of(self@),
                Err(error) => !self@.is_valid() && error@ == "Not a valid topic filter: "@
                    + pattern_of(self@),
            },
    {
        let text = self.pattern_text();
        if self.is_valid() {
            Ok(text)
        } else {
            let mut error = "Not a valid topic filter: ".to_owned();
            error.append(text.as_str());
            Err(error)
        }
    }
}


/// A pattern of topics of operations, made from an [`OperationFilter`] whose
/// fields are identifiers.
#[derive(Debug)]
pub struct TopicFilter {
    filter: OperationFilter,
}

impl View for TopicFilter {
    type V = Seq<char>;

    /// The pattern, as it is written on the transport.
    closed spec fn view(&self) -> Seq<char> {
        pattern_of(self.filter@)
    }
}

impl Clone for TopicFilter {
    fn clone(&self) -> (copy: TopicFilter)
        ensures
            copy@ == self@,
    {
        proof {
            use_type_invariant(self);
        }
        TopicFilter { filter: self.filter.clone() }
    }
}

impl TryFrom<&OperationFilter> for TopicFilter {
    type Error = String;

    /// The pattern of the topics of the operations that `filter` defines.
    ///
    /// Fails if and only if a field that is present holds a separator or a
    /// wildcard.
    fn try_from(filter: &OperationFilter) -> (made: Result<TopicFilter, String>)
        ensures
            match made {
                Ok(pattern) => filter@.is_valid() && pattern@ == pattern_of(filter@),
                Err(error) => !filter@.is_valid() && error@ == "Not a valid topic filter: "@
                    + pattern_of(filter@),
            },
    {
        match filter.to_topic_pattern() {
            Ok(_) => Ok(TopicFilter { filter: filter.clone() }),
            Err(error) => Err(error),
        }
    }
}

/// What `try_from` gives is stated on the function itself, over the views of
/// the values.
impl TryFromSpecImpl<&OperationFilter> for TopicFilter {
    open spec fn obeys_try_from_spec() -> bool {
        false
    }

    open spec fn try_from_spec(filter: &OperationFilter) -> Result<TopicFilter, String> {
        arbitrary()
    }
}

impl TopicFilter {
    #[verifier::type_invariant]
    spec fn made_of_identifiers(&self) -> bool {
        self.filter@.is_valid()
    }

    /// The pattern of the topics of all the operations: a wildcard in each of
    /// the four levels of the key.
    pub fn any() -> (pattern: TopicFilter)
        ensures
            pattern@ == pattern_of(
                OperationFilterView { subsystem: None, operation: None, request: None },
            ),
            pattern@ == "tedge/operations/+/+/+/+"@,
    {
        proof {
            reveal_strlit("tedge/operations/");
            reveal_strlit("/");
            reveal_strlit("+");
            reveal_strlit("/+");
            reveal_strlit("tedge/operations/+/+/+/+");
            assert("tedge/operations/"@ + "+"@ + "/"@ + "+"@ + "/"@ + "+"@ + "/+"@
                =~= "tedge/operations/+/+/+/+"@);
        }
        TopicFilter { filter: OperationFilter { subsystem: None, operation: None, request: None } }
    }

    /// The pattern, as it is written on the transport.
    pub fn pattern(&self) -> (pattern: String)
        ensures
            pattern@ == self@,
    {
        self.filter.pattern_text()
    }

    /// Whether this pattern accepts `topic`, given the operation that the topic
    /// stands for, if it stands for one.
    pub(crate) fn accept_decoded(&self, topic: &str, operation: &Option<OperationKey>) -> (accepted:
        bool)
        requires
            match operation {
                Some(key) => key_of_topic(topic@) == Some(key@),
                None => key_of_topic(topic@) is None,
            },
        ensures
            accepted == pattern_accepts(self@, topic@),
    {
        proof {
            use_type_invariant(self);
            lemma_pattern_semantics(self.filter@, topic@);
        }
        match operation {
            Some(key) => self.filter.accepts(key),
            None => false,
        }
    }

    /// Whether this pattern accepts `topic`: both have the same number of
    /// levels, and each level of the pattern is the wildcard or equals the
    /// topic's level.
    pub fn accept_topic(&self, topic: &str) -> (accepted: bool)
        ensures
            accepted == pattern_accepts(self@, topic@),
    {
        let operation = match OperationKey::try_from(topic) {
            Ok(key) => Some(key),
            Err(_) => None,
        };
        self.accept_decoded(topic, &operation)
    }
}

/// What has to be done by thin-edge when an operation is in this state
#[derive(Debug)]
pub struct OperationState {
    /// The workflow participant that is responsible on moving forward the
    /// operation when in that state
    /// - tedge
    /// - external
    pub owner: String,
    /// Possibly a script to handle the operation when in that state
    pub script: Option<String>,
    /// Transitions
    pub next: Vec<String>,
}

/// What an [`OperationState`] holds.
pub ghost struct OperationStateView {
    pub owner: Seq<char>,
    pub script: Option<Seq<char>>,
    pub next: Seq<Seq<char>>,
}

impl View for OperationState {
    type V = OperationStateView;

    open spec fn view(&self) -> OperationStateView {
        OperationStateView {
            owner: self.owner@,
            script: optional_text_view(self.script),
            next: texts_view(self.next@),
        }
    }
}

impl Clone for OperationState {
    fn clone(&self) -> (copy: OperationState)
        ensures
            copy@ == self@,
    {
        OperationState {
            owner: self.owner.clone(),
            script: clone_optional_text(&self.script),
            next: clone_texts(&self.next),
        }
    }
}

impl Default for OperationState {
    /// A state that thin-edge owns, with no script and no transition.
    fn default() -> (state: OperationState)
        ensures
            state@ == (OperationStateView {
                owner: "tedge"@,
                script: None,
                next: Seq::<Seq<char>>::empty(),
            }),
    {
        let state = OperationState { owner: tedge_owner(), script: None, next: Vec::new() };
        assert(texts_view(state.next@) =~= Seq::<Seq<char>>::empty());
        state
    }
}

/// The owner that stands for thin-edge itself.
pub fn tedge_owner() -> (owner: String)
    ensures
        owner@ == "tedge"@,
{
    "tedge".to_owned()
}

/// An OperationWorkflow defines the state machine that rules an operation
#[derive(Debug)]
pub struct OperationWorkflow {
    /// The set of operations to which these rules applies
    pub filter: OperationFilter,
    /// The states of the state machine
    pub states: WorkflowStates,
}

/// What an [`OperationWorkflow`] holds.
pub ghost struct OperationWorkflowView {
    pub filter: OperationFilterView,
    pub states: Map<Seq<char>, OperationStateView>,
}

impl Default for OperationWorkflow {
    /// The workflow that rules every operation and defines no state.
    fn default() -> (workflow: OperationWorkflow)
        ensures
            workflow@ == (OperationWorkflowView {
                filter: OperationFilterView { subsystem: None, operation: None, request: None },
                states: Map::<Seq<char>, OperationStateView>::empty(),
            }),
    {
        OperationWorkflow { filter: OperationFilter::default(), states: WorkflowStates::new() }
    }
}

impl Clone for OperationWorkflow {
    fn clone(&self) -> (copy: OperationWorkflow)
        ensures
            copy@ == self@,
    {
        OperationWorkflow { filter: self.filter.clone(), states: self.states.clone() }
    }
}

impl View for OperationWorkflow {
    type V = OperationWorkflowView;

    open spec fn view(&self) -> OperationWorkflowView {
        OperationWorkflowView { filter: self.filter@, states: self.states@ }
    }
}

} // verus!
