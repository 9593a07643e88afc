//! The GitHub Actions workflow generated for a new project.
use vstd::prelude::*;

use crate::text::{chars_of, contains_seq, has_prefix, push_str, str_contains, string_from_chars};

verus! {

/// The part of the workflow shared by every template: it runs on pull
/// requests to `dev` and on pushes to `prod`.
pub const BASE_WORKFLOW: &'static str = r#"name: CI/CD Pipeline

on:
  pull_request:
    branches:
      - dev
  push:
    branches:
      - prod

jobs:
  build:
    runs-on: ubuntu-latest
    
    steps:
      - name: Checkout
        uses: actions/checkout@v4
"#;

/// Build steps of Laravel templates.
pub const LARAVEL_STEPS: &'static str = r#"      - name: Setup PHP
        uses: shivammathur/setup-php@v2
        with:
          php-version: 8.4
          tools: composer:v2

      - name: Setup Node
        uses: actions/setup-node@v4
        with:
          node-version: '22'
          cache: 'npm'

      - name: Install Node Dependencies
        run: npm ci

      - name: Install Dependencies
        run: composer install --no-interaction --prefer-dist --optimize-autoloader

      - name: Copy Environment File
        run: cp .env.example .env || true

      - name: Generate Application Key
        run: php artisan key:generate || true

      - name: Build Assets
        run: npm run build || echo "No build script found"

      - name: Run Tests
        run: ./vendor/bin/pest || echo "No tests configured"

      - name: Deploy to Coolify (Dev)
        if: github.event_name == 'pull_request' && github.base_ref == 'dev'
        uses: ./.github/actions/coolify-deploy
        with:
          environment: dev

      - name: Deploy to Coolify (Prod)
        if: github.ref == 'refs/heads/prod' && github.event_name == 'push'
        uses: ./.github/actions/coolify-deploy
        with:
          environment: prod
"#;

/// Build steps of Next.js templates.
pub const NEXTJS_STEPS: &'static str = r#"      - name: Setup Node
        uses: actions/setup-node@v4
        with:
          node-version: '22'
          cache: 'npm'

      - name: Install Dependencies
        run: npm ci

      - name: Build
        run: npm run build

      - name: Run Tests
        run: npm test || echo "No tests configured"

      - name: Deploy to Coolify (Dev)
        if: github.event_name == 'pull_request' && github.base_ref == 'dev'
        uses: ./.github/actions/coolify-deploy
        with:
          environment: dev

      - name: Deploy to Coolify (Prod)
        if: github.ref == 'refs/heads/prod' && github.event_name == 'push'
        uses: ./.github/actions/coolify-deploy
        with:
          environment: prod
"#;

/// Build steps of React Native templates.
pub const REACT_NATIVE_STEPS: &'static str = r#"      - name: Setup Node
        uses: actions/setup-node@v4
        with:
          node-version: '22'
          cache: 'npm'

      - name: Install Dependencies
        run: npm ci

      - name: Build
        run: npm run build || echo "No build script found"

      - name: Run Tests
        run: npm test || echo "No tests configured"

      - name: Deploy to Coolify (Dev)
        if: github.event_name == 'pull_request' && github.base_ref == 'dev'
        uses: ./.github/actions/coolify-deploy
        with:
          environment: dev

      - name: Deploy to Coolify (Prod)
        if: github.ref == 'refs/heads/prod' && github.event_name == 'push'
        uses: ./.github/actions/coolify-deploy
        with:
          environment: prod
"#;

/// Build steps of any other template.
pub const GENERIC_STEPS: &'static str = r#"      - name: Build
        run: echo "Add your build commands here"

      - name: Deploy to Coolify (Dev)
        if: github.event_name == 'pull_request' && github.base_ref == 'dev'
        uses: ./.github/actions/coolify-deploy
        with:
          environment: dev

      - name: Deploy to Coolify (Prod)
        if: github.ref == 'refs/heads/prod' && github.event_name == 'push'
        uses: ./.github/actions/coolify-deploy
        with:
          environment: prod
"#;

/// The build steps chosen by the template's name.
pub open spec fn steps_for(template_name: Seq<char>) -> Seq<char> {
    if contains_seq(template_name, "laravel"@) {
        LARAVEL_STEPS@
    } else if contains_seq(template_name, "next"@) || contains_seq(template_name, "Next"@) {
        NEXTJS_STEPS@
    } else if contains_seq(template_name, "react-native"@) {
        REACT_NATIVE_STEPS@
    } else {
        GENERIC_STEPS@
    }
}

/// The build steps follow the template's name: `laravel` anywhere in it
/// gives the Laravel steps; otherwise `next` or `Next` anywhere gives the
/// Next.js steps; otherwise `react-native` anywhere gives the React Native
/// steps; any other name gives the generic steps.
pub proof fn lemma_steps_follow_name(template_name: Seq<char>)
    ensures
        contains_seq(template_name, "laravel"@) ==> steps_for(template_name) == LARAVEL_STEPS@,
        !contains_seq(template_name, "laravel"@) && (contains_seq(template_name, "next"@)
            || contains_seq(template_name, "Next"@)) ==> steps_for(template_name) == NEXTJS_STEPS@,
        !contains_seq(template_name, "laravel"@) && !contains_seq(template_name, "next"@)
            && !contains_seq(template_name, "Next"@) && contains_seq(template_name, "react-native"@)
            ==> steps_for(template_name) == REACT_NATIVE_STEPS@,
        !contains_seq(template_name, "laravel"@) && !contains_seq(template_name, "next"@)
            && !contains_seq(template_name, "Next"@) && !contains_seq(template_name, "react-native"@)
            ==> steps_for(template_name) == GENERIC_STEPS@,
{
}

/// The CI/CD workflow of a template: the shared part followed by the build
/// steps that the template's name calls for.
pub fn generate_workflow_yaml(template_name: &str) -> (r: String)
    ensures
        r@ == BASE_WORKFLOW@ + steps_for(template_name@),
        has_prefix(r@, BASE_WORKFLOW@),
        contains_seq(template_name@, "laravel"@) ==> r@ == BASE_WORKFLOW@ + LARAVEL_STEPS@,
{
    let steps = if str_contains(template_name, "laravel") {
        generate_laravel_steps()
    } else if str_contains(template_name, "next") || str_contains(template_name, "Next") {
        generate_nextjs_steps()
    } else if str_contains(template_name, "react-native") {
        generate_react_native_steps()
    } else {
        generate_generic_steps()
    };
    let mut v: Vec<char> = Vec::new();
    push_str(&mut v, BASE_WORKFLOW);
    push_str(&mut v, steps);
    let r = string_from_chars(v.as_slice());
    assert(r@.subrange(0, BASE_WORKFLOW@.len() as int) =~= BASE_WORKFLOW@);
    r
}

/// Build steps of Laravel templates.
pub fn generate_laravel_steps() -> (r: &'static str)
    ensures
        r@ == LARAVEL_STEPS@,
{
    LARAVEL_STEPS
}

/// Build steps of Next.js templates.
pub fn generate_nextjs_steps() -> (r: &'static str)
    ensures
        r@ == NEXTJS_STEPS@,
{
    NEXTJS_STEPS
}

/// Build steps of React Native templates.
pub fn generate_react_native_steps() -> (r: &'static str)
    ensures
        r@ == REACT_NATIVE_STEPS@,
{
    REACT_NATIVE_STEPS
}

/// Build steps of any other template.
pub fn generate_generic_steps() -> (r: &'static str)
    ensures
        r@ == GENERIC_STEPS@,
{
    GENERIC_STEPS
}

/// The composite action that the workflow's deploy steps use
/// (`.github/actions/coolify-deploy/action.yml`).
pub const COOLIFY_ACTION: &'static str = r#"name: 'Coolify Deploy'
description: 'Deploy to Coolify'
inputs:
  environment:
    description: 'Environment to deploy to (dev/prod)'
    required: true
runs:
  using: 'composite'
  steps:
    - name: Deploy to Coolify
      shell: bash
      run: |
        echo "Deploying to Coolify ${{ inputs.environment }} environment"
        # Coolify deployment will be handled via API call
"#;

} // verus!
