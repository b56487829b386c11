//! A prompt pairing a question with weighted yes/no style answers.

use vstd::prelude::*;

verus! {

/// One question and its answer choices, each with a score delta.
pub struct DatePrompt {
    pub question: String,
    pub choices: Vec<(String, i8)>,
}

impl DatePrompt {
    pub fn new(question: &str, choices: Vec<(&str, i8)>) -> (r: DatePrompt)
        ensures
            r.question@ == question@,
            r.choices@.len() == choices@.len(),
            forall|i: int|
                0 <= i < choices@.len() ==> (#[trigger] r.choices@[i]).0@ == choices@[i].0@
                    && r.choices@[i].1 == choices@[i].1,
    {
        let n = choices.len();
        let mut transformed: Vec<(String, i8)> = Vec::new();
        let mut i: usize = 0;
        while i < n
            invariant
                n == choices@.len(),
                i <= n,
                transformed@.len() == i,
                forall|k: int|
                    0 <= k < i ==> (#[trigger] transformed@[k]).0@ == choices@[k].0@
                        && transformed@[k].1 == choices@[k].1,
            decreases n - i,
        {
            let (label, delta) = choices[i];
            transformed.push((String::from_str(label), delta));
            i = i + 1;
        }
        DatePrompt { question: String::from_str(question), choices: transformed }
    }
}

} // verus!
