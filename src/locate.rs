//! Finding the CloudFormation stack and logical resource that own this
//! instance, from the tags that EC2's describe-instances call returns, and
//! the signal that tells CloudFormation the instance is ready.
use vstd::prelude::*;
use crate::text::opt_view;

verus! {

/// Key of the tag that holds the id of the owning stack.
pub const STACK_ID_TAG: &'static str = "aws:cloudformation:stack-id";

/// Key of the tag that holds the logical id of the owning resource.
pub const RESOURCE_ID_TAG: &'static str = "aws:cloudformation:logical-id";

/// Status sent with the readiness signal.
pub const SUCCESS_STATUS: &'static str = "SUCCESS";

/// One tag of an EC2 instance; either part may be absent.
#[derive(Debug, PartialEq, Eq)]
pub struct Tag {
    pub key: Option<String>,
    pub value: Option<String>,
}

/// An instance in a describe-instances answer.
#[derive(Debug, PartialEq, Eq)]
pub struct Instance {
    pub tags: Option<Vec<Tag>>,
}

/// A reservation in a describe-instances answer.
#[derive(Debug, PartialEq, Eq)]
pub struct Reservation {
    pub instances: Option<Vec<Instance>>,
}

/// The part of a describe-instances answer that the lookup reads.
#[derive(Debug, PartialEq, Eq)]
pub struct DescribeInstancesResult {
    pub reservations: Option<Vec<Reservation>>,
}

/// Why the stack and resource of this instance could not be found.
#[derive(Debug, PartialEq, Eq)]
pub enum TagFetchError {
    /// The describe-instances call failed; the text describes the failure.
    DescribeInstancesError(String),
    /// The answer holds no reservation, no instance, or no tag at all.
    NoTagsReturned,
    /// No tag holds the stack id; or both tags are there and the first stack
    /// tag holds no text.
    MissingStackName,
    /// A stack tag is there but no logical resource tag; or both are there, the
    /// stack tag holds text and the first resource tag holds none.
    MissingResourceId,
    /// The instance id to signal for is empty.
    EmptyInstanceId,
}

/// The stack, logical resource and instance that the readiness signal names.
/// [`locate`] builds one only with all three fields non-empty.
#[derive(Debug, PartialEq, Eq)]
pub struct ReadinessTarget {
    pub stack_name: String,
    pub logical_resource_id: String,
    pub unique_id: String,
}

/// The arguments of CloudFormation's signal-resource call.
#[derive(Debug, PartialEq, Eq)]
pub struct SignalResourceInput {
    pub logical_resource_id: String,
    pub stack_name: String,
    pub status: String,
    pub unique_id: String,
}

/// Tag `t` has key `key`.
pub open spec fn has_key(t: Tag, key: Seq<char>) -> bool {
    t.key is Some && t.key->Some_0@ == key
}

/// The index of the first tag with key `key` at or after `from`, if any.
pub open spec fn first_with_key_from(tags: Seq<Tag>, key: Seq<char>, from: int) -> Option<int>
    decreases tags.len() - from,
{
    if from < 0 || from >= tags.len() {
        None
    } else if has_key(tags[from], key) {
        Some(from)
    } else {
        first_with_key_from(tags, key, from + 1)
    }
}

/// What looking `key` up in `tags` gives: the value of the first tag with
/// that key, earlier tags winning over later ones with the same key.
pub open spec fn tag_lookup(tags: Seq<Tag>, key: Seq<char>) -> Option<Seq<char>> {
    match first_with_key_from(tags, key, 0) {
        Some(i) => opt_view(tags[i].value),
        None => None,
    }
}

/// The tag list of the first instance of the first reservation, if the answer has one.
pub open spec fn tags_in(result: DescribeInstancesResult) -> Option<Seq<Tag>> {
    match result.reservations {
        Some(rs) => if rs.len() > 0 {
            match rs[0].instances {
                Some(is) => if is.len() > 0 {
                    match is[0].tags {
                        Some(ts) => Some(ts@),
                        None => None,
                    }
                } else {
                    None
                },
                None => None,
            }
        } else {
            None
        },
        None => None,
    }
}

/// A lookup found a value, and the value is not empty.
pub open spec fn has_text(v: Option<Seq<char>>) -> bool {
    v matches Some(t) && t.len() > 0
}

/// `r` is what the lookup of the two ids gives on an answer `d` whose call succeeded.
pub open spec fn ids_from_answer(r: Result<(String, String), TagFetchError>, d: DescribeInstancesResult) -> bool {
    match tags_in(d) {
        None => r == Err::<(String, String), TagFetchError>(TagFetchError::NoTagsReturned),
        Some(ts) => if ts.len() == 0 {
            r == Err::<(String, String), TagFetchError>(TagFetchError::NoTagsReturned)
        } else if tag_lookup(ts, STACK_ID_TAG@) is None {
            r == Err::<(String, String), TagFetchError>(TagFetchError::MissingStackName)
        } else if tag_lookup(ts, RESOURCE_ID_TAG@) is None {
            r == Err::<(String, String), TagFetchError>(TagFetchError::MissingResourceId)
        } else if !has_text(tag_lookup(ts, STACK_ID_TAG@)) {
            r == Err::<(String, String), TagFetchError>(TagFetchError::MissingStackName)
        } else if !has_text(tag_lookup(ts, RESOURCE_ID_TAG@)) {
            r == Err::<(String, String), TagFetchError>(TagFetchError::MissingResourceId)
        } else {
            r matches Ok((stack, resource)) && Some(stack@) == tag_lookup(ts, STACK_ID_TAG@)
                && Some(resource@) == tag_lookup(ts, RESOURCE_ID_TAG@)
        },
    }
}

/// `r` is what the lookup of the two ids gives on the outcome `result` of the call.
pub open spec fn ids_from_outcome(
    r: Result<(String, String), TagFetchError>,
    result: Result<DescribeInstancesResult, String>,
) -> bool {
    match result {
        Err(e) => r == Err::<(String, String), TagFetchError>(TagFetchError::DescribeInstancesError(e)),
        Ok(d) => ids_from_answer(r, d),
    }
}

proof fn lemma_first_with_key_facts(tags: Seq<Tag>, key: Seq<char>, from: int)
    requires
        0 <= from,
    ensures
        match first_with_key_from(tags, key, from) {
            Some(i) => from <= i < tags.len() && has_key(tags[i], key)
                && forall|j: int| from <= j < i ==> !has_key(#[trigger] tags[j], key),
            None => forall|j: int| from <= j < tags.len() ==> !has_key(#[trigger] tags[j], key),
        },
    decreases tags.len() - from,
{
    if from < tags.len() && !has_key(tags[from], key) {
        lemma_first_with_key_facts(tags, key, from + 1);
    }
}

/// Lookup is decided by the first tag with the key: whatever later tags with
/// the same key hold, the lookup gives the first one's value.
pub proof fn lemma_first_tag_wins(tags: Seq<Tag>, key: Seq<char>, i: int)
    requires
        0 <= i < tags.len(),
        has_key(tags[i], key),
        forall|j: int| 0 <= j < i ==> !has_key(#[trigger] tags[j], key),
    ensures
        tag_lookup(tags, key) == opt_view(tags[i].value),
{
    lemma_first_with_key_facts(tags, key, 0);
    match first_with_key_from(tags, key, 0) {
        Some(k) => {
            if k < i {
                assert(!has_key(tags[k], key));
            } else if k > i {
                assert(!has_key(tags[i], key));
            }
        },
        None => {
            assert(!has_key(tags[i], key));
        },
    }
}

/// Each missing piece is reported as such: no tag list, or an empty one,
/// gives `NoTagsReturned`; an absent stack tag gives `MissingStackName`
/// whether or not the resource tag is there; a stack tag (with or without
/// text) and no resource tag gives `MissingResourceId`; with both tags there,
/// an empty stack value gives `MissingStackName` and otherwise an empty
/// resource value gives `MissingResourceId`. Success means both were found,
/// with text.
pub proof fn lemma_missing_pieces_reported(r: Result<(String, String), TagFetchError>, d: DescribeInstancesResult)
    requires
        ids_from_answer(r, d),
    ensures
        tags_in(d) is None ==> r == Err::<(String, String), TagFetchError>(TagFetchError::NoTagsReturned),
        tags_in(d) matches Some(ts) && ts.len() == 0
            ==> r == Err::<(String, String), TagFetchError>(TagFetchError::NoTagsReturned),
        tags_in(d) matches Some(ts) && ts.len() > 0 && tag_lookup(ts, STACK_ID_TAG@) is None
            ==> r == Err::<(String, String), TagFetchError>(TagFetchError::MissingStackName),
        tags_in(d) matches Some(ts) && ts.len() > 0 && tag_lookup(ts, STACK_ID_TAG@) is Some
            && tag_lookup(ts, RESOURCE_ID_TAG@) is None
            ==> r == Err::<(String, String), TagFetchError>(TagFetchError::MissingResourceId),
        tags_in(d) matches Some(ts) && ts.len() > 0 && tag_lookup(ts, STACK_ID_TAG@) is Some
            && tag_lookup(ts, RESOURCE_ID_TAG@) is Some && !has_text(tag_lookup(ts, STACK_ID_TAG@))
            ==> r == Err::<(String, String), TagFetchError>(TagFetchError::MissingStackName),
        tags_in(d) matches Some(ts) && ts.len() > 0 && has_text(tag_lookup(ts, STACK_ID_TAG@))
            && tag_lookup(ts, RESOURCE_ID_TAG@) is Some && !has_text(tag_lookup(ts, RESOURCE_ID_TAG@))
            ==> r == Err::<(String, String), TagFetchError>(TagFetchError::MissingResourceId),
        r is Ok ==> (tags_in(d) matches Some(ts) && has_text(tag_lookup(ts, STACK_ID_TAG@))
            && has_text(tag_lookup(ts, RESOURCE_ID_TAG@))),
{
}

/// Looks `key` up in `tags`. Where several tags have that key, the first wins.
pub fn find_tag_by_key(tags: &Vec<Tag>, key: &str) -> (r: Option<String>)
    ensures
        opt_view(r) == tag_lookup(tags@, key@),
{
    let wanted = key.to_owned();
    let mut i: usize = 0;
    while i < tags.len()
        invariant
            0 <= i <= tags@.len(),
            wanted@ == key@,
            first_with_key_from(tags@, key@, 0) == first_with_key_from(tags@, key@, i as int),
        decreases tags@.len() - i,
    {
        let t = &tags[i];
        let found = match &t.key {
            Some(k) => *k == wanted,
            None => false,
        };
        if found {
            return match &t.value {
                Some(v) => Some(v.clone()),
                None => None,
            };
        }
        i = i + 1;
    }
    None
}

/// The tag list of the first instance of the first reservation in `d`.
pub fn first_instance_tags(d: &DescribeInstancesResult) -> (r: Option<&Vec<Tag>>)
    ensures
        match r {
            Some(ts) => tags_in(*d) == Some(ts@),
            None => tags_in(*d) is None,
        },
{
    match &d.reservations {
        Some(rs) => {
            if rs.len() == 0 {
                return None;
            }
            match &rs[0].instances {
                Some(is) => {
                    if is.len() == 0 {
                        return None;
                    }
                    match &is[0].tags {
                        Some(ts) => Some(ts),
                        None => None,
                    }
                },
                None => None,
            }
        },
        None => None,
    }
}

/// Finds the stack id and the logical resource id of this instance in the
/// outcome of the describe-instances call for it. A failed call, a missing
/// record, a missing or empty tag list, and a missing or empty tag are each
/// reported. Both tags are looked for before their values are tested, and
/// the stack tag comes first at each stage.
pub fn fetch_stack_and_resource_ids(result: Result<DescribeInstancesResult, String>) -> (r: Result<(String, String), TagFetchError>)
    ensures
        ids_from_outcome(r, result),
{
    let d = match result {
        Ok(d) => d,
        Err(e) => return Err(TagFetchError::DescribeInstancesError(e)),
    };
    let tags = match first_instance_tags(&d) {
        Some(ts) => ts,
        None => return Err(TagFetchError::NoTagsReturned),
    };
    if tags.len() == 0 {
        return Err(TagFetchError::NoTagsReturned);
    }
    let stack_name = match find_tag_by_key(tags, STACK_ID_TAG) {
        Some(v) => v,
        None => return Err(TagFetchError::MissingStackName),
    };
    let resource_id = match find_tag_by_key(tags, RESOURCE_ID_TAG) {
        Some(v) => v,
        None => return Err(TagFetchError::MissingResourceId),
    };
    if stack_name.as_str().is_empty() {
        return Err(TagFetchError::MissingStackName);
    }
    if resource_id.as_str().is_empty() {
        return Err(TagFetchError::MissingResourceId);
    }
    Ok((stack_name, resource_id))
}

/// The target of the readiness signal: the stack and resource found for the
/// instance `instance_id`, or the reason they were not found. An empty
/// instance id is refused before the answer is read.
pub fn locate(result: Result<DescribeInstancesResult, String>, instance_id: String) -> (r: Result<ReadinessTarget, TagFetchError>)
    ensures
        instance_id@.len() == 0 ==> r == Err::<ReadinessTarget, TagFetchError>(TagFetchError::EmptyInstanceId),
        instance_id@.len() > 0 ==> match r {
            Ok(t) => t.unique_id == instance_id
                && ids_from_outcome(Ok((t.stack_name, t.logical_resource_id)), result),
            Err(e) => ids_from_outcome(Err(e), result),
        },
        r matches Ok(t) ==> t.stack_name@.len() > 0 && t.logical_resource_id@.len() > 0
            && t.unique_id@.len() > 0,
{
    if instance_id.as_str().is_empty() {
        return Err(TagFetchError::EmptyInstanceId);
    }
    match fetch_stack_and_resource_ids(result) {
        Ok((stack_name, logical_resource_id)) => Ok(ReadinessTarget { stack_name, logical_resource_id, unique_id: instance_id }),
        Err(e) => Err(e),
    }
}

/// The signal-resource call that reports `target` ready: status `SUCCESS`
/// and the target's stack, logical resource and instance, none of them empty.
pub fn signal_input(target: ReadinessTarget) -> (r: SignalResourceInput)
    requires
        target.stack_name@.len() > 0,
        target.logical_resource_id@.len() > 0,
        target.unique_id@.len() > 0,
    ensures
        r.logical_resource_id == target.logical_resource_id,
        r.stack_name == target.stack_name,
        r.status@ == SUCCESS_STATUS@,
        r.unique_id == target.unique_id,
{
    SignalResourceInput {
        logical_resource_id: target.logical_resource_id,
        stack_name: target.stack_name,
        status: SUCCESS_STATUS.to_owned(),
        unique_id: target.unique_id,
    }
}

/// The signal-resource call for this instance, given the outcome of the
/// describe-instances call for `instance_id`: status `SUCCESS` with the stack
/// and logical resource found for it and the instance id itself, or the
/// reason they were not found, in which case no signal is to be sent.
pub fn ready_signal(result: Result<DescribeInstancesResult, String>, instance_id: String) -> (r: Result<SignalResourceInput, TagFetchError>)
    ensures
        instance_id@.len() == 0 ==> r == Err::<SignalResourceInput, TagFetchError>(TagFetchError::EmptyInstanceId),
        instance_id@.len() > 0 ==> match r {
            Ok(i) => i.unique_id == instance_id && i.status@ == SUCCESS_STATUS@
                && ids_from_outcome(Ok((i.stack_name, i.logical_resource_id)), result),
            Err(e) => ids_from_outcome(Err(e), result),
        },
        r matches Ok(i) ==> i.stack_name@.len() > 0 && i.logical_resource_id@.len() > 0
            && i.unique_id@.len() > 0,
{
    match locate(result, instance_id) {
        Ok(target) => Ok(signal_input(target)),
        Err(e) => Err(e),
    }
}

} // verus!
