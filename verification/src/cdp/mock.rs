//! A stand-in for the browser connection, for testing the commands without
//! a browser: it answers each method with the responses programmed for it,
//! first programmed first answered, and records every call.
//!
//! Parameters and responses are JSON texts.
use vstd::prelude::*;
use crate::string_map::lemma_index_of_unique;
use crate::text::{str_eq, push_str};

verus! {

/// A call made through the stand-in.
#[derive(Debug, Clone)]
pub struct CallRecord {
    pub method: String,
    pub params: String,
    pub session_id: Option<String>,
}

/// A programmed answer: a response, or an error message.
pub type Answer = Result<String, String>;

/// The view of an answer.
pub open spec fn answer_view(a: Answer) -> Result<Seq<char>, Seq<char>> {
    match a {
        Ok(t) => Ok(t@),
        Err(e) => Err(e@),
    }
}

/// The views of a queue of answers.
pub open spec fn answers_view(q: Seq<Answer>) -> Seq<Result<Seq<char>, Seq<char>>> {
    q.map_values(|a: Answer| answer_view(a))
}

/// A connection stand-in: the answers programmed for each method, the calls
/// made, whether the connection is up, and the answer to a method with none
/// programmed.
pub struct MockTransport {
    methods: Vec<String>,
    queues: Vec<Vec<Answer>>,
    calls: Vec<CallRecord>,
    alive: bool,
    default_response: Option<String>,
}

/// The message of a call on a dropped connection.
pub open spec fn dead_message() -> Seq<char> {
    "CDP connection dead"@
}

/// The message of a call that nothing answers.
pub open spec fn unexpected_message(method: Seq<char>) -> Seq<char> {
    "MockTransport: unexpected call to "@ + method
}

/// The text of an optional string.
pub open spec fn opt_view(o: Option<String>) -> Option<Seq<char>> {
    match o {
        Some(s) => Some(s@),
        None => None,
    }
}

/// The number of calls to a method.
pub open spec fn count_calls(calls: Seq<CallRecord>, method: Seq<char>) -> nat
    decreases calls.len(),
{
    if calls.len() == 0 {
        0
    } else {
        count_calls(calls.drop_last(), method) + if calls.last().method@ == method { 1nat } else { 0nat }
    }
}

/// A call is to the method.
pub open spec fn on_method(method: Seq<char>) -> spec_fn(CallRecord) -> bool {
    |c: CallRecord| c.method@ == method
}

/// The calls to a method, in order.
pub open spec fn calls_to(calls: Seq<CallRecord>, method: Seq<char>) -> Seq<CallRecord> {
    calls.filter(on_method(method))
}

impl MockTransport {
    /// The methods with programmed answers, each once.
    pub closed spec fn methods(&self) -> Seq<Seq<char>> {
        self.methods@.map_values(|m: String| m@)
    }

    /// The answers still programmed for a method, in the order they were
    /// programmed.
    pub closed spec fn queue(&self, method: Seq<char>) -> Seq<Result<Seq<char>, Seq<char>>> {
        if self.methods().contains(method) {
            answers_view(self.queues@[self.methods().index_of(method)]@)
        } else {
            Seq::empty()
        }
    }

    /// The calls made, in order.
    pub closed spec fn calls_made(&self) -> Seq<CallRecord> {
        self.calls@
    }

    /// Whether the connection is up.
    pub closed spec fn is_alive(&self) -> bool {
        self.alive
    }

    /// The answer to a method with none programmed.
    pub closed spec fn default_answer(&self) -> Option<Seq<char>> {
        match self.default_response {
            Some(t) => Some(t@),
            None => None,
        }
    }

    /// One queue per method, and no method twice.
    pub closed spec fn wf(&self) -> bool {
        &&& self.methods().no_duplicates()
        &&& self.queues@.len() == self.methods@.len()
    }

    /// A stand-in that is up, with nothing programmed and no calls made.
    pub fn new() -> (t: Self)
        ensures
            t.wf(),
            forall|m: Seq<char>| #[trigger] t.queue(m) == Seq::<Result<Seq<char>, Seq<char>>>::empty(),
            t.calls_made() == Seq::<CallRecord>::empty(),
            t.is_alive(),
            t.default_answer() is None,
    {
        let t = MockTransport {
            methods: Vec::new(),
            queues: Vec::new(),
            calls: Vec::new(),
            alive: true,
            default_response: None,
        };
        assert(t.methods() =~= Seq::<Seq<char>>::empty());
        t
    }

    fn position(&self, method: &str) -> (r: Option<usize>)
        requires
            self.wf(),
        ensures
            r matches Some(i) ==> self.methods().contains(method@) && i == self.methods().index_of(method@)
                && i < self.methods().len(),
            r is None ==> !self.methods().contains(method@),
    {
        let mut i: usize = 0;
        while i < self.methods.len()
            invariant
                i <= self.methods@.len(),
                self.wf(),
                forall|j: int| 0 <= j < i ==> self.methods()[j] != method@,
            decreases self.methods@.len() - i,
        {
            if str_eq(self.methods[i].as_str(), method) {
                proof {
                    assert(self.methods()[i as int] == method@);
                    lemma_index_of_unique(self.methods(), i as int);
                }
                return Some(i);
            }
            i = i + 1;
        }
        proof {
            if self.methods().contains(method@) {
                let j = self.methods().index_of(method@);
                assert(self.methods()[j] == method@);
            }
        }
        None
    }

    fn program(&mut self, method: &str, answer: Answer)
        requires
            old(self).wf(),
        ensures
            final(self).wf(),
            final(self).queue(method@) == old(self).queue(method@).push(answer_view(answer)),
            forall|m: Seq<char>| m != method@ ==> #[trigger] final(self).queue(m) == old(self).queue(m),
            final(self).calls_made() == old(self).calls_made(),
            final(self).is_alive() == old(self).is_alive(),
            final(self).default_answer() == old(self).default_answer(),
    {
        let ghost av = answer_view(answer);
        match self.position(method) {
            Some(i) => {
                let mut queues: Vec<Vec<Answer>> = Vec::new();
                std::mem::swap(&mut queues, &mut self.queues);
                let mut q = queues.remove(i);
                let ghost before = q@;
                q.push(answer);
                queues.insert(i, q);
                self.queues = queues;
                proof {
                    assert(answers_view(self.queues@[i as int]@) =~= answers_view(before).push(av));
                    assert forall|m: Seq<char>| m != method@ implies #[trigger] self.queue(m) == old(self).queue(m) by {
                        if self.methods().contains(m) {
                            let k = self.methods().index_of(m);
                            assert(self.methods()[k] == m);
                            assert(k != i);
                        }
                    }
                }
            },
            None => {
                let mut q: Vec<Answer> = Vec::new();
                q.push(answer);
                self.methods.push(method.to_owned());
                self.queues.push(q);
                proof {
                    let n = self.methods@.len() - 1;
                    assert(self.methods() =~= old(self).methods().push(method@));
                    assert(self.methods()[n] == method@);
                    lemma_index_of_unique(self.methods(), n);
                    assert(answers_view(self.queues@[n]@) =~= seq![av]);
                    assert(old(self).queue(method@) =~= Seq::<Result<Seq<char>, Seq<char>>>::empty());
                    assert forall|m: Seq<char>| m != method@ implies #[trigger] self.queue(m) == old(self).queue(m) by {
                        if old(self).methods().contains(m) {
                            let k = old(self).methods().index_of(m);
                            assert(old(self).methods()[k] == m);
                            assert(self.methods()[k] == m);
                            lemma_index_of_unique(self.methods(), k);
                        }
                        if self.methods().contains(m) {
                            let k = self.methods().index_of(m);
                            assert(self.methods()[k] == m);
                            if k < n {
                                assert(old(self).methods()[k] == m);
                            }
                        }
                    }
                }
            },
        }
    }

    /// Programs a response for a method, answered after those programmed
    /// before it.
    pub fn expect(&mut self, method: &str, response: String)
        requires
            old(self).wf(),
        ensures
            final(self).wf(),
            final(self).queue(method@) == old(self).queue(method@).push(Ok(response@)),
            forall|m: Seq<char>| m != method@ ==> #[trigger] final(self).queue(m) == old(self).queue(m),
            final(self).calls_made() == old(self).calls_made(),
            final(self).is_alive() == old(self).is_alive(),
            final(self).default_answer() == old(self).default_answer(),
    {
        self.program(method, Ok(response));
    }

    /// Programs an error for a method, answered after those programmed
    /// before it.
    pub fn expect_error(&mut self, method: &str, error_message: &str)
        requires
            old(self).wf(),
        ensures
            final(self).wf(),
            final(self).queue(method@) == old(self).queue(method@).push(Err(error_message@)),
            forall|m: Seq<char>| m != method@ ==> #[trigger] final(self).queue(m) == old(self).queue(m),
            final(self).calls_made() == old(self).calls_made(),
            final(self).is_alive() == old(self).is_alive(),
            final(self).default_answer() == old(self).default_answer(),
    {
        self.program(method, Err(error_message.to_owned()));
    }

    /// Sets the answer to any method with none programmed.
    pub fn set_default_response(&mut self, response: String)
        ensures
            final(self).default_answer() == Some(response@),
            forall|m: Seq<char>| #[trigger] final(self).queue(m) == old(self).queue(m),
            final(self).wf() == old(self).wf(),
            final(self).calls_made() == old(self).calls_made(),
            final(self).is_alive() == old(self).is_alive(),
    {
        self.default_response = Some(response);
    }

    /// Brings the connection up or drops it.
    pub fn set_alive(&mut self, alive: bool)
        ensures
            final(self).is_alive() == alive,
            forall|m: Seq<char>| #[trigger] final(self).queue(m) == old(self).queue(m),
            final(self).wf() == old(self).wf(),
            final(self).calls_made() == old(self).calls_made(),
            final(self).default_answer() == old(self).default_answer(),
    {
        self.alive = alive;
    }

    /// The calls made, in order.
    pub fn calls(&self) -> (r: Vec<CallRecord>)
        ensures
            r@.len() == self.calls_made().len(),
            forall|i: int| 0 <= i < r@.len() ==> {
                &&& #[trigger] r@[i].method@ == self.calls_made()[i].method@
                &&& r@[i].params@ == self.calls_made()[i].params@
                &&& opt_view(r@[i].session_id) == opt_view(self.calls_made()[i].session_id)
            },
    {
        let mut r: Vec<CallRecord> = Vec::new();
        let mut i: usize = 0;
        while i < self.calls.len()
            invariant
                i <= self.calls@.len(),
                r@.len() == i,
                forall|j: int| 0 <= j < i ==> {
                    &&& #[trigger] r@[j].method@ == self.calls@[j].method@
                    &&& r@[j].params@ == self.calls@[j].params@
                    &&& opt_view(r@[j].session_id) == opt_view(self.calls@[j].session_id)
                },
            decreases self.calls@.len() - i,
        {
            let c = &self.calls[i];
            let session_id = match &c.session_id {
                Some(s) => Some(s.clone()),
                None => None,
            };
            let method = c.method.clone();
            let params = c.params.clone();
            assert(method@ == c.method@ && params@ == c.params@);
            assert(opt_view(session_id) == opt_view(c.session_id));
            r.push(CallRecord { method, params, session_id });
            assert(r@[i as int].method@ == self.calls@[i as int].method@);
            i = i + 1;
        }
        r
    }

    /// How many times a method was called.
    pub fn call_count(&self, method: &str) -> (n: usize)
        ensures
            n == count_calls(self.calls_made(), method@),
    {
        let mut n: usize = 0;
        let mut i: usize = 0;
        while i < self.calls.len()
            invariant
                i <= self.calls@.len(),
                n == count_calls(self.calls@.take(i as int), method@),
                n <= i,
            decreases self.calls@.len() - i,
        {
            assert(self.calls@.take(i + 1).drop_last() =~= self.calls@.take(i as int));
            if str_eq(self.calls[i].method.as_str(), method) {
                n = n + 1;
            }
            i = i + 1;
        }
        assert(self.calls@.take(self.calls@.len() as int) =~= self.calls@);
        n
    }

    /// The parameters of the call to a method with the given index among
    /// the calls to it, from 0.
    pub fn call_params(&self, method: &str, index: usize) -> (r: Option<String>)
        ensures
            index < calls_to(self.calls_made(), method@).len() ==> (r matches Some(p)
                && p@ == calls_to(self.calls_made(), method@)[index as int].params@),
            index >= calls_to(self.calls_made(), method@).len() ==> r is None,
    {
        let ghost f = on_method(method@);
        let mut seen: usize = 0;
        let mut i: usize = 0;
        assert(self.calls@.take(0).filter(f) =~= Seq::<CallRecord>::empty());
        while i < self.calls.len()
            invariant
                i <= self.calls@.len(),
                f == on_method(method@),
                seen == self.calls@.take(i as int).filter(f).len(),
                seen <= index,
            decreases self.calls@.len() - i,
        {
            let ghost before = self.calls@.take(i as int);
            assert(self.calls@.take(i + 1) =~= before.push(self.calls@[i as int]));
            proof {
                before.lemma_filter_len_push(f, self.calls@[i as int]);
                before.lemma_filter_push(self.calls@[i as int], f);
            }
            if str_eq(self.calls[i].method.as_str(), method) {
                if seen == index {
                    proof {
                        let all = self.calls@;
                        let pre = all.take(i + 1);
                        assert(pre.filter(f) == before.filter(f).push(all[i as int]));
                        assert(all =~= pre + all.skip(i + 1));
                        Seq::filter_distributes_over_add(pre, all.skip(i + 1), f);
                        assert(calls_to(all, method@) =~= all.filter(f));
                        assert(all.filter(f)[index as int] == pre.filter(f)[index as int]);
                    }
                    return Some(self.calls[i].params.clone());
                }
                seen = seen + 1;
            }
            i = i + 1;
        }
        assert(self.calls@.take(self.calls@.len() as int) =~= self.calls@);
        assert(calls_to(self.calls@, method@) =~= self.calls@.filter(f));
        None
    }

    /// Forgets every programmed answer and every call.
    pub fn reset(&mut self)
        ensures
            final(self).wf(),
            forall|m: Seq<char>| #[trigger] final(self).queue(m) == Seq::<Result<Seq<char>, Seq<char>>>::empty(),
            final(self).calls_made() == Seq::<CallRecord>::empty(),
            final(self).is_alive() == old(self).is_alive(),
            final(self).default_answer() == old(self).default_answer(),
    {
        self.methods = Vec::new();
        self.queues = Vec::new();
        self.calls = Vec::new();
        assert(self.methods() =~= Seq::<Seq<char>>::empty());
    }

    /// Answers a call: records it, then gives an error on a dropped
    /// connection, else the first answer programmed for its method (which is
    /// used up), else the default response, else an error.
    pub fn resolve(&mut self, method: &str, params: String, session_id: Option<String>) -> (r: Answer)
        requires
            old(self).wf(),
        ensures
            final(self).wf(),
            final(self).calls_made().len() == old(self).calls_made().len() + 1,
            final(self).calls_made().drop_last() == old(self).calls_made(),
            final(self).calls_made().last().method@ == method@,
            final(self).calls_made().last().params == params,
            final(self).calls_made().last().session_id == session_id,
            final(self).is_alive() == old(self).is_alive(),
            final(self).default_answer() == old(self).default_answer(),
            !old(self).is_alive() ==> answer_view(r) == Err::<Seq<char>, Seq<char>>(dead_message())
                && forall|m: Seq<char>| #[trigger] final(self).queue(m) == old(self).queue(m),
            old(self).is_alive() && old(self).queue(method@).len() > 0 ==> answer_view(r) == old(self).queue(method@)[0]
                && final(self).queue(method@) == old(self).queue(method@).drop_first(),
            old(self).is_alive() && old(self).queue(method@).len() == 0 ==> answer_view(r) == match old(self).default_answer() {
                Some(d) => Ok::<Seq<char>, Seq<char>>(d),
                None => Err(unexpected_message(method@)),
            },
            old(self).is_alive() ==> forall|m: Seq<char>| m != method@ ==> #[trigger] final(self).queue(m) == old(self).queue(m),
            old(self).is_alive() && old(self).queue(method@).len() == 0 ==> final(self).queue(method@) == old(self).queue(method@),
    {
        self.calls.push(CallRecord { method: method.to_owned(), params, session_id });
        proof {
            assert(self.calls@.drop_last() =~= old(self).calls@);
        }
        if !self.alive {
            proof {
                reveal_strlit("CDP connection dead");
            }
            return Err("CDP connection dead".to_owned());
        }
        match self.position(method) {
            Some(i) => {
                if self.queues[i].len() > 0 {
                    let mut queues: Vec<Vec<Answer>> = Vec::new();
                    std::mem::swap(&mut queues, &mut self.queues);
                    let mut q = queues.remove(i);
                    let ghost before = q@;
                    let a = q.remove(0);
                    queues.insert(i, q);
                    self.queues = queues;
                    proof {
                        assert(answers_view(self.queues@[i as int]@) =~= answers_view(before).drop_first());
                        assert forall|m: Seq<char>| m != method@ implies #[trigger] self.queue(m) == old(self).queue(m) by {
                            if self.methods().contains(m) {
                                let k = self.methods().index_of(m);
                                assert(self.methods()[k] == m);
                                assert(k != i);
                            }
                        }
                    }
                    return a;
                }
            },
            None => {},
        }
        match &self.default_response {
            Some(d) => Ok(d.clone()),
            None => {
                let mut m = String::new();
                push_str(&mut m, "MockTransport: unexpected call to ");
                push_str(&mut m, method);
                Err(m)
            },
        }
    }
}

/// Answers come out in the order they were programmed: programming one more
/// answer never changes the answer that comes out first, nor, once that is
/// used, the order of the rest.
pub proof fn law_answers_first_in_first_out(q: Seq<Result<Seq<char>, Seq<char>>>, a: Result<Seq<char>, Seq<char>>)
    ensures
        q.len() > 0 ==> q.push(a)[0] == q[0] && q.push(a).drop_first() == q.drop_first().push(a),
        q.len() == 0 ==> q.push(a)[0] == a && q.push(a).drop_first().len() == 0,
{
    if q.len() > 0 {
        assert(q.push(a).drop_first() =~= q.drop_first().push(a));
    }
}

/// The count of calls to a method is the number of calls to it, so the
/// parameters of each counted call can be looked up by its index.
pub proof fn law_count_matches_calls(calls: Seq<CallRecord>, method: Seq<char>)
    ensures
        count_calls(calls, method) == calls_to(calls, method).len(),
    decreases calls.len(),
{
    let f = on_method(method);
    if calls.len() > 0 {
        law_count_matches_calls(calls.drop_last(), method);
        assert(calls =~= calls.drop_last().push(calls.last()));
        calls.drop_last().lemma_filter_len_push(f, calls.last());
        assert(calls_to(calls, method) =~= calls.filter(f));
        assert(calls_to(calls.drop_last(), method) =~= calls.drop_last().filter(f));
    } else {
        assert(calls_to(calls, method) =~= calls.filter(f));
        assert(calls.filter(f).len() == 0) by {
            reveal(Seq::filter);
        }
    }
}


} // verus!
